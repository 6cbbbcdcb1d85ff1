//! Identities: a certificate with its private key.

use vstd::prelude::*;
use vstd::string::StringSliceAdditionalSpecFns;

use crate::bridge::{cstring, cstring_outcome, handle_outcome, len_to_isize, required_handle, CreateReply};
use crate::error::{Result, SecurityError};

verus! {

/// Wraps `SecIdentityRef`.
#[derive(Debug)]
pub struct Identity<H> {
    handle: H,
}

impl<H> Identity<H> {
    /// The bridge handle this value holds.
    pub closed spec fn spec_handle(&self) -> H {
        self.handle
    }

    /// Wraps a handle that the bridge returned.
    pub fn from_handle(handle: H) -> (value: Self)
        ensures
            value.spec_handle() == handle,
    {
        Identity { handle: handle }
    }

    /// The bridge handle this value holds.
    pub fn handle(&self) -> (handle: &H)
        ensures
            *handle == self.spec_handle(),
    {
        &self.handle
    }
}

/// What importing the first identity of a PKCS#12 archive hands to its
/// bridge call: the archive and its length, and the password as a C string.
#[derive(Debug)]
pub struct Pkcs12Call<'a> {
    /// The PKCS#12 archive.
    pub data: &'a [u8],
    /// The length of the archive.
    pub data_length: isize,
    /// The password, NUL-terminated.
    pub password: Vec<u8>,
}

/// The bridge operation that imports the first identity of an archive.
pub const IMPORT_PKCS12_FIRST: &'static str = "security_identity_import_pkcs12_first";

/// The first macOS release whose `SecPKCS12Import` leaves the private key
/// out of the login keychain.
pub const PKCS12_IMPORT_MACOS: u32 = 15;

/// The text of the error for an import on an older macOS.
pub open spec fn pkcs12_unsupported_text() -> Seq<char> {
    "PKCS#12 import needs macOS 15: before it SecPKCS12Import stores the private key in the login keychain"@
}

/// The handle an identity result holds, or its error.
pub open spec fn identity_handle<H>(result: Result<Identity<H>>) -> Result<H> {
    match result {
        Ok(identity) => Ok(identity.spec_handle()),
        Err(error) => Err(error),
    }
}

impl<H> Identity<H> {
    /// The first identity of the PKCS#12 archive `data`, opened with
    /// `password` by the bridge call `import`, on macOS `macos_major`. Before
    /// macOS 15 the import is refused as `Unsupported` without a call; then
    /// the password must hold no NUL byte and the archive's length must fit
    /// the bridge's signed size.
    pub fn import_pkcs12_first<'a, F>(
        data: &'a [u8],
        password: &str,
        macos_major: u32,
        import: F,
    ) -> (result: Result<Self>)
        where
            F: FnOnce(Pkcs12Call<'a>) -> CreateReply<H>,
        requires
            forall|call: Pkcs12Call<'a>| import.requires((call,)),
        ensures
            macos_major < PKCS12_IMPORT_MACOS ==> (result matches Err(
                SecurityError::Unsupported(message),
            ) && message@ == pkcs12_unsupported_text()),
            macos_major >= PKCS12_IMPORT_MACOS && password.spec_bytes().contains(0u8) ==> (
            result matches Err(error) && cstring_outcome(password.spec_bytes(), Err(error))),
            macos_major >= PKCS12_IMPORT_MACOS && !password.spec_bytes().contains(0u8)
                && data@.len() > isize::MAX ==> (result matches Err(
                SecurityError::InvalidArgument(message),
            ) && message@ == "input exceeds bridge size limits"@),
            macos_major >= PKCS12_IMPORT_MACOS && !password.spec_bytes().contains(0u8)
                && data@.len() <= isize::MAX ==> exists|
                arguments: Pkcs12Call<'a>,
                reply: CreateReply<H>,
            |
                {
                    &&& arguments.data@ == data@
                    &&& arguments.data_length == data@.len()
                    &&& arguments.password@ == password.spec_bytes().push(0u8)
                    &&& import.ensures((arguments,), reply)
                    &&& handle_outcome(
                        identity_handle(result),
                        IMPORT_PKCS12_FIRST,
                        reply.0,
                        reply.1,
                        reply.2,
                    )
                },
    {
        if macos_major < PKCS12_IMPORT_MACOS {
            return Err(
                SecurityError::Unsupported(
                    "PKCS#12 import needs macOS 15: before it SecPKCS12Import stores the private key in the login keychain".to_string(),
                ),
            );
        }
        let password_c = cstring(password)?;
        let data_length = len_to_isize(data.len())?;
        let arguments = Pkcs12Call { data, data_length, password: password_c };
        let (handle, status, error_text) = import(arguments);
        match required_handle(IMPORT_PKCS12_FIRST, handle, status, error_text) {
            Ok(handle) => Ok(Identity { handle }),
            Err(error) => Err(error),
        }
    }
}

} // verus!

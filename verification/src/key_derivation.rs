//! Password-based key derivation: the checked arguments of a PBKDF2 request
//! and the key the bridge derives.

use vstd::prelude::*;
use vstd::string::StringSliceAdditionalSpecFns;

use crate::bridge::{
    cstring, cstring_outcome, handle_outcome, len_to_isize, object_outcome, required_handle, CreateReply,
};
use crate::keychain::SecretReply;
use crate::secret::SecretBytes;
use crate::error::{Result, SecurityError};

verus! {

/// Wraps a `SecKeyRef` derived from a password.
#[derive(Debug)]
pub struct DerivedKey<H> {
    handle: H,
}

impl<H> DerivedKey<H> {
    /// The bridge handle this value holds.
    pub closed spec fn spec_handle(&self) -> H {
        self.handle
    }

    /// Wraps a handle that the bridge returned.
    pub fn from_handle(handle: H) -> (value: Self)
        ensures
            value.spec_handle() == handle,
    {
        DerivedKey { handle: handle }
    }

    /// The bridge handle this value holds.
    pub fn handle(&self) -> (handle: &H)
        ensures
            *handle == self.spec_handle(),
    {
        &self.handle
    }
}

/// The bridge operation that copies a key's external representation.
pub const COPY_EXTERNAL_REPRESENTATION: &'static str = "security_key_copy_external_representation";

impl<H> DerivedKey<H> {
    /// The derived key's bytes, copied by the bridge call `copy`, which is
    /// handed this key's handle; they come back as `SecretBytes`, wiped when
    /// dropped.
    pub fn bytes<F>(&self, copy: F) -> (result: Result<SecretBytes>)
        where
            F: FnOnce(&H) -> SecretReply,
        requires
            copy.requires((&self.spec_handle(),)),
        ensures
            exists|reply: SecretReply|
                copy.ensures((&self.spec_handle(),), reply) && object_outcome(
                    result,
                    COPY_EXTERNAL_REPRESENTATION,
                    reply.0,
                    reply.1,
                    reply.2,
                    |secret: SecretBytes, bytes: Vec<u8>| secret.spec_bytes() == bytes@,
                ),
    {
        let reply = copy(&self.handle);
        let (object, status, error_text) = reply;
        match required_handle(COPY_EXTERNAL_REPRESENTATION, object, status, error_text) {
            Ok(Ok(bytes)) => Ok(SecretBytes::new(bytes)),
            Ok(Err(read_error)) => Err(read_error),
            Err(error) => Err(error),
        }
    }
}

/// What a PBKDF2 request hands to its bridge call.
#[derive(Debug)]
pub struct Pbkdf2Call<'a> {
    /// The password, NUL-terminated.
    pub password: Vec<u8>,
    /// The salt.
    pub salt: &'a [u8],
    /// The length of the salt.
    pub salt_length: isize,
    /// The round count.
    pub rounds: isize,
    /// The size of the key, in bits.
    pub key_size_bits: isize,
}

/// The bridge operation that derives a key with PBKDF2-SHA256.
pub const DERIVE_PBKDF2_SHA256: &'static str = "security_key_derivation_derive_pbkdf2_sha256";

/// The handle a derived-key result holds, or its error.
pub open spec fn derived_handle<H>(result: Result<DerivedKey<H>>) -> Result<H> {
    match result {
        Ok(key) => Ok(key.spec_handle()),
        Err(error) => Err(error),
    }
}

/// Wraps password-based key derivation.
pub struct KeyDerivation;

impl KeyDerivation {
    /// A key of `key_size_bits` bits derived from `password` and `salt` with
    /// `rounds` rounds of PBKDF2-SHA256 by the bridge call `derive`. The
    /// arguments are checked in order: the password must hold no NUL byte,
    /// and the salt length, the round count and the key size must fit the
    /// bridge's signed size.
    pub fn derive_pbkdf2_sha256<'a, H, F>(
        password: &str,
        salt: &'a [u8],
        rounds: u32,
        key_size_bits: usize,
        derive: F,
    ) -> (result: Result<DerivedKey<H>>)
        where
            F: FnOnce(Pbkdf2Call<'a>) -> CreateReply<H>,
        requires
            forall|call: Pbkdf2Call<'a>| derive.requires((call,)),
        ensures
            password.spec_bytes().contains(0u8) ==> (result matches Err(error) && cstring_outcome(
                password.spec_bytes(),
                Err(error),
            )),
            !password.spec_bytes().contains(0u8) && (salt@.len() > isize::MAX || (rounds
                <= isize::MAX && key_size_bits > isize::MAX)) ==> (result matches Err(
                SecurityError::InvalidArgument(message),
            ) && message@ == "input exceeds bridge size limits"@),
            !password.spec_bytes().contains(0u8) && salt@.len() <= isize::MAX && rounds
                > isize::MAX ==> (result matches Err(SecurityError::InvalidArgument(message))
                && message@ == "round count exceeds bridge size limits"@),
            !password.spec_bytes().contains(0u8) && salt@.len() <= isize::MAX && rounds
                <= isize::MAX && key_size_bits <= isize::MAX ==> exists|
                arguments: Pbkdf2Call<'a>,
                reply: CreateReply<H>,
            |
                {
                    &&& arguments.password@ == password.spec_bytes().push(0u8)
                    &&& arguments.salt@ == salt@
                    &&& arguments.salt_length == salt@.len()
                    &&& arguments.rounds == rounds
                    &&& arguments.key_size_bits == key_size_bits
                    &&& derive.ensures((arguments,), reply)
                    &&& handle_outcome(
                        derived_handle(result),
                        DERIVE_PBKDF2_SHA256,
                        reply.0,
                        reply.1,
                        reply.2,
                    )
                },
    {
        let password_c = cstring(password)?;
        let salt_length = len_to_isize(salt.len())?;
        if rounds as u64 > isize::MAX as u64 {
            return Err(
                SecurityError::InvalidArgument("round count exceeds bridge size limits".to_string()),
            );
        }
        let rounds = rounds as isize;
        let key_size_bits = len_to_isize(key_size_bits)?;
        let arguments = Pbkdf2Call { password: password_c, salt, salt_length, rounds, key_size_bits };
        let (handle, status, error_text) = derive(arguments);
        match required_handle(DERIVE_PBKDF2_SHA256, handle, status, error_text) {
            Ok(handle) => Ok(DerivedKey::from_handle(handle)),
            Err(error) => Err(error),
        }
    }
}

} // verus!

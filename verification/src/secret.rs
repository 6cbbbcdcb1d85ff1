//! Secret bytes read from the keychain, held in a buffer that `zeroize`
//! wipes when it is dropped.

use vstd::prelude::*;
use vstd::utf8::{decode_utf8, valid_utf8};
use zeroize::Zeroizing;

use crate::error::{Result, SecurityError};

verus! {

/// A byte buffer that is wiped when dropped: a `zeroize::Zeroizing<Vec<u8>>`.
#[verifier::external_body]
#[derive(Debug)]
pub struct WipedBuffer {
    bytes: Zeroizing<Vec<u8>>,
}

/// The bytes a wiped-on-drop buffer holds.
pub uninterp spec fn wiped_bytes(buffer: WipedBuffer) -> Seq<u8>;

/// Moves `bytes` into a buffer that is wiped when dropped
/// (`Zeroizing::new`); the buffer holds exactly those bytes.
#[verifier::external_body]
pub(crate) fn wiped_buffer(bytes: Vec<u8>) -> (buffer: WipedBuffer)
    ensures
        wiped_bytes(buffer) == bytes@,
{
    WipedBuffer { bytes: Zeroizing::new(bytes) }
}

/// The vector inside a wiped-on-drop buffer (`Deref` of `Zeroizing`).
#[verifier::external_body]
fn wiped_vec(buffer: &WipedBuffer) -> (bytes: &Vec<u8>)
    ensures
        bytes@ == wiped_bytes(*buffer),
{
    &buffer.bytes
}

/// The text of `bytes` when they are UTF-8 (`std::str::from_utf8`), `None`
/// when they are not.
#[verifier::external_body]
fn utf8_str(bytes: &[u8]) -> (text: Option<&str>)
    ensures
        valid_utf8(bytes@) <==> text is Some,
        text matches Some(t) ==> t@ == decode_utf8(bytes@),
{
    std::str::from_utf8(bytes).ok()
}

/// Secret bytes; the buffer is wiped when the value is dropped, and its
/// `Debug` form shows none of them. `Debug` is derived: the wiped buffer's own
/// `Debug` prints no contents, so no byte of the secret appears.
#[derive(Debug)]
pub struct SecretBytes(WipedBuffer);

impl SecretBytes {
    /// The bytes of the secret.
    pub closed spec fn spec_bytes(&self) -> Seq<u8> {
        wiped_bytes(self.0)
    }

    /// Moves `bytes` into a buffer that is wiped when the secret is dropped.
    pub fn new(bytes: Vec<u8>) -> (secret: Self)
        ensures
            secret.spec_bytes() == bytes@,
    {
        SecretBytes(wiped_buffer(bytes))
    }

    /// The bytes of the secret.
    pub fn as_bytes(&self) -> (bytes: &[u8])
        ensures
            bytes@ == self.spec_bytes(),
    {
        wiped_vec(&self.0).as_slice()
    }

    /// The secret as text; refused when it is not UTF-8.
    pub fn as_str(&self) -> (result: Result<&str>)
        ensures
            valid_utf8(self.spec_bytes()) ==> (result matches Ok(text) && text@ == decode_utf8(
                self.spec_bytes(),
            )),
            !valid_utf8(self.spec_bytes()) ==> (result matches Err(
                SecurityError::InvalidArgument(message),
            ) && message@ == "secret is not valid UTF-8"@),
    {
        match utf8_str(self.as_bytes()) {
            Some(text) => Ok(text),
            None => Err(SecurityError::InvalidArgument("secret is not valid UTF-8".to_string())),
        }
    }

    /// The number of bytes.
    pub fn len(&self) -> (length: usize)
        ensures
            length == self.spec_bytes().len(),
    {
        wiped_vec(&self.0).len()
    }

    /// Whether there are no bytes.
    pub fn is_empty(&self) -> (empty: bool)
        ensures
            empty == (self.spec_bytes().len() == 0),
    {
        wiped_vec(&self.0).len() == 0
    }
}

impl AsRef<[u8]> for SecretBytes {
    /// The bytes of the secret.
    fn as_ref(&self) -> (bytes: &[u8])
        ensures
            bytes@ == self.spec_bytes(),
    {
        self.as_bytes()
    }
}

} // verus!

//! Cryptographically secure random bytes from `SecRandomCopyBytes`, called
//! directly.

use vstd::prelude::*;

use crate::error::{spec_from_status, OsStatus, Result, SecurityError};
use crate::random_bytes::zeros;

verus! {

/// What a direct `SecRandomCopyBytes` call hands back: the buffer it filled,
/// the status it returned and the framework's message for that status.
pub type CopyBytesReply = (Vec<u8>, OsStatus, String);

/// The framework function behind this generator.
pub const COPY_BYTES: &'static str = "SecRandomCopyBytes";

/// Stateless wrapper around Apple's default CSPRNG.
pub struct SecureRandom;

impl SecureRandom {
    /// `length` random bytes, filled in by the call `copy_bytes`, which is
    /// handed `length` zero bytes and fills them in place; a nonzero status
    /// becomes its error, with the framework's message.
    pub fn bytes<F>(length: usize, copy_bytes: F) -> (result: Result<Vec<u8>>)
        where
            F: FnOnce(Vec<u8>) -> CopyBytesReply,
        requires
            length <= isize::MAX,
            forall|buffer: Vec<u8>| copy_bytes.requires((buffer,)),
            forall|buffer: Vec<u8>, reply: CopyBytesReply|
                copy_bytes.ensures((buffer,), reply) ==> reply.0@.len() == buffer@.len(),
        ensures
            result matches Ok(bytes) ==> bytes@.len() == length,
            length == 0 ==> (result matches Ok(bytes) && bytes@ == Seq::<u8>::empty()),
            length != 0 ==> exists|buffer: Vec<u8>, reply: CopyBytesReply|
                {
                    &&& buffer@ == zeros(length as nat)
                    &&& copy_bytes.ensures((buffer,), reply)
                    &&& reply.1 == 0 ==> result == Ok::<Vec<u8>, SecurityError>(reply.0)
                    &&& reply.1 != 0 ==> result == Err::<Vec<u8>, SecurityError>(
                        spec_from_status(COPY_BYTES, reply.1, reply.2),
                    )
                },
    {
        let buffer: Vec<u8> = vec![0u8; length];
        if length == 0 {
            assert(buffer@ =~= Seq::<u8>::empty());
            return Ok(buffer);
        }
        assert(buffer@ =~= zeros(length as nat));
        let (bytes, status, message) = copy_bytes(buffer);
        if status == 0 {
            Ok(bytes)
        } else {
            Err(SecurityError::from_status(COPY_BYTES, status, message))
        }
    }
}

} // verus!

//! Secure random bytes from `SecRandomCopyBytes`, through the bridge.

use vstd::prelude::*;

use crate::bridge::{status_outcome, status_result};
use crate::error::{OsStatus, Result};

verus! {

/// What the bridge's fill call hands back: the buffer it filled, the status it
/// reported and the text of its error object.
pub type FillReply = (Vec<u8>, OsStatus, Result<Option<String>>);

/// The bridge operation that fills a buffer with random bytes.
pub const RANDOM_FILL: &'static str = "security_random_fill";

/// `length` zero bytes.
pub open spec fn zeros(length: nat) -> Seq<u8> {
    Seq::new(length, |i: int| 0u8)
}

/// `result` is what asking for `length` random bytes comes to: no bytes and
/// no call for a zero length; otherwise the bytes the fill call, handed
/// `length` zero bytes and that length, returned when it reported a zero
/// status, and the status's error when it did not.
pub open spec fn random_outcome<F: FnOnce(Vec<u8>, isize) -> FillReply>(
    result: Result<Vec<u8>>,
    operation: &'static str,
    length: usize,
    fill: F,
) -> bool {
    if length == 0 {
        result matches Ok(bytes) && bytes@ == Seq::<u8>::empty()
    } else {
        exists|buffer: Vec<u8>, reply: FillReply|
            {
                &&& buffer@ == zeros(length as nat)
                &&& fill.ensures((buffer, length as isize), reply)
                &&& status_outcome(
                    match result {
                        Ok(_) => Ok(()),
                        Err(error) => Err(error),
                    },
                    operation,
                    reply.1,
                    reply.2,
                )
                &&& result matches Ok(bytes) ==> bytes == reply.0
            }
    }
}

/// Wraps `SecRandomCopyBytes` through the bridge.
pub struct SecureRandom;

impl SecureRandom {
    /// `length` random bytes, filled in by the bridge call `fill`, which
    /// fills the buffer it is handed in place and so hands back as many bytes.
    pub fn bytes<F>(length: usize, fill: F) -> (result: Result<Vec<u8>>)
        where
            F: FnOnce(Vec<u8>, isize) -> FillReply,
        requires
            length <= isize::MAX,
            forall|buffer: Vec<u8>, size: isize| fill.requires((buffer, size)),
            forall|buffer: Vec<u8>, size: isize, reply: FillReply|
                fill.ensures((buffer, size), reply) ==> reply.0@.len() == buffer@.len(),
        ensures
            random_outcome(result, RANDOM_FILL, length, fill),
            result matches Ok(bytes) ==> bytes@.len() == length,
    {
        let buffer: Vec<u8> = vec![0u8; length];
        if length == 0 {
            assert(buffer@ =~= Seq::<u8>::empty());
            return Ok(buffer);
        }
        assert(buffer@ =~= zeros(length as nat));
        let reply = fill(buffer, length as isize);
        let (bytes, status, error_text) = reply;
        match status_result(RANDOM_FILL, status, error_text) {
            Ok(()) => Ok(bytes),
            Err(error) => Err(error),
        }
    }
}

} // verus!

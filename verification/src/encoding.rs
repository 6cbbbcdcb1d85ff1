//! Base64 text, decoded with the `base64` crate.

use base64::Engine;
use vstd::prelude::*;

verus! {

/// What the `base64` crate's standard engine makes of `input`: the decoded
/// bytes, or the text of its decoding error.
pub uninterp spec fn base64_standard_decode(input: Seq<u8>) -> std::result::Result<Seq<u8>, Seq<char>>;

/// Decodes `input` with `base64::engine::general_purpose::STANDARD`; a
/// failure carries the text of the `DecodeError`.
#[verifier::external_body]
pub(crate) fn decode_base64(input: &[u8]) -> (result: std::result::Result<Vec<u8>, String>)
    ensures
        match base64_standard_decode(input@) {
            Ok(bytes) => result matches Ok(decoded) && decoded@ == bytes,
            Err(text) => result matches Err(message) && message@ == text,
        },
{
    base64::engine::general_purpose::STANDARD.decode(input).map_err(|error| error.to_string())
}

} // verus!

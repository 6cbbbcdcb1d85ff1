//! Security Transforms: the text of a base64 encoding the bridge produced.

use vstd::prelude::*;
use vstd::utf8::{decode_utf8, valid_utf8};

use crate::bridge::{utf8_error_text, utf8_string};
use crate::error::{Result, SecurityError};

verus! {

/// Wraps the Security Transforms base64 encoder and decoder.
pub struct Transform;

/// The text of the error for an encoding that is not UTF-8.
pub open spec fn encoded_text_error(bytes: Seq<u8>) -> Seq<char> {
    "base64 transform returned invalid UTF-8: "@ + utf8_error_text(bytes)
}

impl Transform {
    /// The base64 text of the bytes the encoder produced; they must be UTF-8.
    pub fn encoded_text(bytes: Vec<u8>) -> (result: Result<String>)
        ensures
            valid_utf8(bytes@) ==> (result matches Ok(text) && text@ == decode_utf8(bytes@)),
            !valid_utf8(bytes@) ==> (result matches Err(SecurityError::Serialization(message))
                && message@ == encoded_text_error(bytes@)),
    {
        match utf8_string(bytes) {
            Ok(text) => Ok(text),
            Err(message) => Err(
                SecurityError::Serialization(
                    crate::text::joined(
                        "base64 transform returned invalid UTF-8: ",
                        message.as_str(),
                    ),
                ),
            ),
        }
    }
}

} // verus!

//! The JSON documents handed to the bridge: strings and lists of strings are
//! written by `serde_json`; byte lists and the option objects around the
//! literals are framed here.

use vstd::prelude::*;
use vstd::string::StringExecFns;

use crate::error::{Result, SecurityError};
use crate::text::spec_decimal;

verus! {

/// The hexadecimal digit of `n`, below 16, in lower case.
pub open spec fn hex_digit(n: nat) -> char {
    if n < 10 {
        (('0' as nat) + n) as char
    } else {
        (('a' as nat) + n - 10) as char
    }
}

/// How `serde_json` writes one character inside a string literal: a quote,
/// a backslash and the control characters below U+0020 are escaped (the
/// short forms `\b \t \n \f \r`, else `\u00` and two lower-case hex
/// digits); every other character stands as it is.
pub open spec fn json_escape_char(c: char) -> Seq<char> {
    if c == '"' {
        seq!['\\', '"']
    } else if c == '\\' {
        seq!['\\', '\\']
    } else if c == '\u{8}' {
        seq!['\\', 'b']
    } else if c == '\t' {
        seq!['\\', 't']
    } else if c == '\n' {
        seq!['\\', 'n']
    } else if c == '\u{c}' {
        seq!['\\', 'f']
    } else if c == '\r' {
        seq!['\\', 'r']
    } else if (c as nat) < 0x20 {
        seq!['\\', 'u', '0', '0', hex_digit((c as nat) / 16), hex_digit((c as nat) % 16)]
    } else {
        seq![c]
    }
}

/// The characters of `text`, each escaped as `serde_json` writes it.
pub open spec fn json_escape(text: Seq<char>) -> Seq<char>
    decreases text.len(),
{
    if text.len() == 0 {
        Seq::empty()
    } else {
        json_escape(text.drop_last()) + json_escape_char(text.last())
    }
}

/// The JSON string literal of `text`: quoted, with its characters escaped.
pub open spec fn json_string_text(text: Seq<char>) -> Seq<char> {
    seq!['"'] + json_escape(text) + seq!['"']
}

/// What `serde_json::to_string` makes of a string: its JSON literal. Writing
/// a string into the in-memory buffer of `to_string` cannot fail, so this is
/// never an error.
pub open spec fn serde_json_string(text: Seq<char>) -> std::result::Result<Seq<char>, Seq<char>> {
    Ok(json_string_text(text))
}

/// Writes `value` as a JSON string literal with `serde_json::to_string`; a
/// failure carries the text of `serde_json::Error`.
#[verifier::external_body]
pub(crate) fn json_string_literal(value: &str) -> (result: std::result::Result<String, String>)
    ensures
        match serde_json_string(value@) {
            Ok(literal) => result matches Ok(text) && text@ == literal,
            Err(message) => result matches Err(text) && text@ == message,
        },
{
    serde_json::to_string(value).map_err(|error| error.to_string())
}

/// The text of the error for a document that could not be written.
pub open spec fn json_write_error_text(message: Seq<char>) -> Seq<char> {
    "failed to encode bridge JSON: "@ + message
}

/// The JSON literal of `value`, or the `Serialization` error for its failure.
pub fn json_literal(value: &str) -> (result: Result<String>)
    ensures
        match serde_json_string(value@) {
            Ok(literal) => result matches Ok(text) && text@ == literal,
            Err(message) => result matches Err(SecurityError::Serialization(text)) && text@
                == json_write_error_text(message),
        },
{
    match json_string_literal(value) {
        Ok(text) => Ok(text),
        Err(message) => Err(
            SecurityError::Serialization(
                crate::text::joined("failed to encode bridge JSON: ", message.as_str()),
            ),
        ),
    }
}

/// `true` or `false` as JSON.
pub open spec fn json_bool_text(value: bool) -> Seq<char> {
    if value {
        "true"@
    } else {
        "false"@
    }
}

/// The JSON literals of `items`, separated by commas.
pub open spec fn string_list_body(items: Seq<Seq<char>>) -> Seq<char>
    decreases items.len(),
{
    if items.len() == 0 {
        Seq::empty()
    } else if items.len() == 1 {
        json_string_text(items[0])
    } else {
        string_list_body(items.drop_last()) + seq![','] + json_string_text(items.last())
    }
}

/// What `serde_json::to_string` makes of a list of strings: the JSON array
/// of their literals, with no space. Like a single string, it never fails.
pub open spec fn string_list_json_text(items: Seq<Seq<char>>) -> std::result::Result<Seq<char>, Seq<char>> {
    Ok(seq!['['] + string_list_body(items) + seq![']'])
}

/// The characters of each string of a slice.
pub open spec fn texts(items: Seq<&str>) -> Seq<Seq<char>> {
    items.map_values(|item: &str| item@)
}

/// The characters of each string of a list.
pub open spec fn owned_texts(items: Seq<String>) -> Seq<Seq<char>> {
    items.map_values(|item: String| item@)
}

/// Writes `items` as a JSON array of strings with `serde_json::to_string`; a
/// failure carries the text of `serde_json::Error`.
#[verifier::external_body]
pub(crate) fn string_list_json(items: &[&str]) -> (result: std::result::Result<String, String>)
    ensures
        match string_list_json_text(texts(items@)) {
            Ok(text) => result matches Ok(json) && json@ == text,
            Err(message) => result matches Err(text) && text@ == message,
        },
{
    serde_json::to_string(items).map_err(|error| error.to_string())
}

/// `items` as a JSON array of strings; a failure carries the text of the
/// error.
pub fn owned_string_list_json(items: &[String]) -> (result: std::result::Result<String, String>)
    ensures
        match string_list_json_text(owned_texts(items@)) {
            Ok(text) => result matches Ok(json) && json@ == text,
            Err(message) => result matches Err(text) && text@ == message,
        },
{
    let mut borrowed: Vec<&str> = Vec::new();
    let mut i: usize = 0;
    while i < items.len()
        invariant
            i <= items@.len(),
            borrowed@.len() == i,
            forall|k: int| 0 <= k < i ==> #[trigger] borrowed@[k]@ == items@[k]@,
        decreases items@.len() - i,
    {
        borrowed.push(items[i].as_str());
        i = i + 1;
    }
    assert(texts(borrowed@) =~= owned_texts(items@));
    string_list_json(borrowed.as_slice())
}

/// `items` as the JSON array the bridge reads, or the `Serialization` error.
pub fn bridge_string_list(items: &[&str]) -> (result: Result<String>)
    ensures
        match string_list_json_text(texts(items@)) {
            Ok(text) => result matches Ok(json) && json@ == text,
            Err(message) => result matches Err(SecurityError::Serialization(text)) && text@
                == json_write_error_text(message),
        },
{
    match string_list_json(items) {
        Ok(json) => Ok(json),
        Err(message) => Err(
            SecurityError::Serialization(
                crate::text::joined("failed to encode bridge JSON: ", message.as_str()),
            ),
        ),
    }
}

/// `items` as the JSON array the bridge reads, or `None` when there are none
/// (nothing is sent).
pub fn optional_bridge_string_list(items: &[&str]) -> (result: Result<Option<String>>)
    ensures
        items@.len() == 0 ==> result == Ok::<Option<String>, SecurityError>(None),
        items@.len() != 0 ==> match string_list_json_text(texts(items@)) {
            Ok(text) => result matches Ok(Some(json)) && json@ == text,
            Err(message) => result matches Err(SecurityError::Serialization(text)) && text@
                == json_write_error_text(message),
        },
{
    if items.len() == 0 {
        return Ok(None);
    }
    match bridge_string_list(items) {
        Ok(json) => Ok(Some(json)),
        Err(error) => Err(error),
    }
}

/// The bytes of a list as JSON numbers, separated by commas.
pub open spec fn byte_list_body(bytes: Seq<u8>) -> Seq<char>
    decreases bytes.len(),
{
    if bytes.len() == 0 {
        Seq::empty()
    } else if bytes.len() == 1 {
        spec_decimal(bytes[0] as nat)
    } else {
        byte_list_body(bytes.drop_last()) + ","@ + spec_decimal(bytes.last() as nat)
    }
}

/// A byte list as a JSON array of numbers, as `serde_json` writes a `Vec<u8>`.
pub open spec fn byte_list_text(bytes: Seq<u8>) -> Seq<char> {
    "["@ + byte_list_body(bytes) + "]"@
}

/// The byte lists as JSON arrays, separated by commas.
pub open spec fn byte_lists_body(lists: Seq<Seq<u8>>) -> Seq<char>
    decreases lists.len(),
{
    if lists.len() == 0 {
        Seq::empty()
    } else if lists.len() == 1 {
        byte_list_text(lists[0])
    } else {
        byte_lists_body(lists.drop_last()) + ","@ + byte_list_text(lists.last())
    }
}

/// The bytes of each list.
pub open spec fn list_bytes(lists: Seq<Vec<u8>>) -> Seq<Seq<u8>> {
    lists.map_values(|list: Vec<u8>| list@)
}

/// `bytes` as a JSON array of numbers.
pub fn byte_list_json(bytes: &[u8]) -> (json: String)
    ensures
        json@ == byte_list_text(bytes@),
{
    let mut body = String::new();
    let mut i: usize = 0;
    while i < bytes.len()
        invariant
            i <= bytes@.len(),
            body@ == byte_list_body(bytes@.subrange(0, i as int)),
        decreases bytes@.len() - i,
    {
        let ghost before = body@;
        if i > 0 {
            body.append(",");
        }
        crate::text::push_decimal(&mut body, bytes[i] as u64);
        assert(bytes@.subrange(0, i + 1).drop_last() =~= bytes@.subrange(0, i as int));
        assert(i == 0 ==> bytes@.subrange(0, i as int) =~= Seq::<u8>::empty());
        i = i + 1;
    }
    assert(bytes@.subrange(0, bytes@.len() as int) =~= bytes@);
    let mut json = "[".to_string();
    json.append(body.as_str());
    json.append("]");
    json
}

/// `lists` as a JSON array of arrays of numbers.
pub fn byte_lists_json(lists: &[Vec<u8>]) -> (json: String)
    ensures
        json@ == "["@ + byte_lists_body(list_bytes(lists@)) + "]"@,
{
    let mut body = String::new();
    let mut i: usize = 0;
    while i < lists.len()
        invariant
            i <= lists@.len(),
            body@ == byte_lists_body(list_bytes(lists@).subrange(0, i as int)),
        decreases lists@.len() - i,
    {
        if i > 0 {
            body.append(",");
        }
        let item = byte_list_json(lists[i].as_slice());
        body.append(item.as_str());
        assert(list_bytes(lists@).subrange(0, i + 1).drop_last() =~= list_bytes(lists@).subrange(
            0,
            i as int,
        ));
        assert(list_bytes(lists@).subrange(0, i + 1).last() == lists@[i as int]@);
        assert(i == 0 ==> list_bytes(lists@).subrange(0, i as int) =~= Seq::<Seq<u8>>::empty());
        i = i + 1;
    }
    assert(list_bytes(lists@).subrange(0, lists@.len() as int) =~= list_bytes(lists@));
    let mut json = "[".to_string();
    json.append(body.as_str());
    json.append("]");
    json
}

/// `lists` as a JSON array of arrays of numbers, or `None` when there are
/// none (nothing is sent).
pub fn optional_byte_lists_json(lists: &[Vec<u8>]) -> (json: Option<String>)
    ensures
        lists@.len() == 0 ==> json is None,
        lists@.len() != 0 ==> (json matches Some(text) && text@ == "["@ + byte_lists_body(
            list_bytes(lists@),
        ) + "]"@),
{
    if lists.len() == 0 {
        None
    } else {
        Some(byte_lists_json(lists))
    }
}

} // verus!

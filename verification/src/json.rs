//! The JSON documents that the bridge hands back, as plain values.

use vstd::prelude::*;

use crate::bridge::json_read_error_text;
use crate::error::{Result, SecurityError};
use crate::text::{spec_decimal, spec_signed_decimal};

verus! {

/// A JSON number as the bridge's JSON reader keeps it.
#[derive(Debug, Clone, PartialEq, Eq)]
pub enum JsonNumber {
    /// A number without sign, fraction or exponent.
    PosInt(u64),
    /// A negative integer.
    NegInt(i64),
    /// Any other number, kept as its rendered text.
    Float(String),
}

/// A JSON value.
#[derive(Debug, PartialEq, Eq)]
pub enum JsonValue {
    /// `null`.
    Null,
    /// `true` or `false`.
    Bool(bool),
    /// A number.
    Number(JsonNumber),
    /// A string.
    String(String),
    /// An array.
    Array(Vec<JsonValue>),
    /// An object: its members in the reader's order, each key once.
    Object(Vec<(String, JsonValue)>),
}

/// The value of the first member named `key`.
pub open spec fn spec_lookup(members: Seq<(String, JsonValue)>, key: Seq<char>) -> Option<JsonValue>
    decreases members.len(),
{
    if members.len() == 0 {
        None
    } else if members[0].0@ == key {
        Some(members[0].1)
    } else {
        spec_lookup(members.drop_first(), key)
    }
}

/// The index of the last member named `key`, or -1 when there is none.
pub open spec fn last_member_index(members: Seq<(String, JsonValue)>, key: Seq<char>) -> int
    decreases members.len(),
{
    if members.len() == 0 {
        -1
    } else if members.last().0@ == key {
        members.len() - 1
    } else {
        last_member_index(members.drop_last(), key)
    }
}

/// The last member named `key` is at `last_member_index`; no member has that
/// key when the index is -1.
pub proof fn lemma_last_member_index(members: Seq<(String, JsonValue)>, key: Seq<char>)
    ensures
        -1 <= last_member_index(members, key) < members.len(),
        last_member_index(members, key) >= 0 ==> members[last_member_index(members, key)].0@
            == key,
        last_member_index(members, key) == -1 ==> forall|i: int|
            0 <= i < members.len() ==> #[trigger] members[i].0@ != key,
    decreases members.len(),
{
    if members.len() > 0 {
        lemma_last_member_index(members.drop_last(), key);
        if members.last().0@ != key {
            assert forall|i: int| 0 <= i < members.len() && last_member_index(members, key) == -1
                implies #[trigger] members[i].0@ != key by {
                if i < members.len() - 1 {
                    assert(members.drop_last()[i] == members[i]);
                }
            }
        }
    }
}

/// The member `key` of an object; `None` for a value that is no object.
pub open spec fn spec_get(value: JsonValue, key: Seq<char>) -> Option<JsonValue> {
    match value {
        JsonValue::Object(members) => spec_lookup(members@, key),
        _ => None,
    }
}

/// The integer a number holds when it fits an `i64`.
pub open spec fn spec_number_as_i64(number: JsonNumber) -> Option<i64> {
    match number {
        JsonNumber::PosInt(n) => if n <= i64::MAX {
            Some(n as i64)
        } else {
            None
        },
        JsonNumber::NegInt(n) => Some(n),
        JsonNumber::Float(_) => None,
    }
}

/// The integer a number holds when it fits a `u64`.
pub open spec fn spec_number_as_u64(number: JsonNumber) -> Option<u64> {
    match number {
        JsonNumber::PosInt(n) => Some(n),
        _ => None,
    }
}

/// The text of a number.
pub open spec fn spec_number_text(number: JsonNumber) -> Seq<char> {
    match number {
        JsonNumber::PosInt(n) => spec_decimal(n as nat),
        JsonNumber::NegInt(n) => spec_signed_decimal(n as int),
        JsonNumber::Float(text) => text@,
    }
}

/// The value of the first member named `key`.
pub fn lookup<'a>(members: &'a Vec<(String, JsonValue)>, key: &str) -> (result: Option<&'a JsonValue>)
    ensures
        match result {
            Some(member) => spec_lookup(members@, key@) == Some(*member),
            None => spec_lookup(members@, key@) is None,
        },
{
    let wanted = key.to_string();
    let mut i: usize = 0;
    assert(members@.skip(0) =~= members@);
    while i < members.len()
        invariant
            i <= members@.len(),
            wanted@ == key@,
            spec_lookup(members@, key@) == spec_lookup(members@.skip(i as int), key@),
        decreases members@.len() - i,
    {
        assert(members@.skip(i as int).drop_first() =~= members@.skip(i + 1));
        assert(members@.skip(i as int)[0] == members@[i as int]);
        if members[i].0 == wanted {
            return Some(&members[i].1);
        }
        i = i + 1;
    }
    None
}

impl JsonNumber {
    /// The integer this number holds when it fits an `i64`.
    pub fn as_i64(&self) -> (result: Option<i64>)
        ensures
            result == spec_number_as_i64(*self),
    {
        match self {
            JsonNumber::PosInt(n) => if *n <= i64::MAX as u64 {
                Some(*n as i64)
            } else {
                None
            },
            JsonNumber::NegInt(n) => Some(*n),
            JsonNumber::Float(_) => None,
        }
    }

    /// The integer this number holds when it fits a `u64`.
    pub fn as_u64(&self) -> (result: Option<u64>)
        ensures
            result == spec_number_as_u64(*self),
    {
        match self {
            JsonNumber::PosInt(n) => Some(*n),
            _ => None,
        }
    }

    /// The text of this number.
    pub fn to_string(&self) -> (text: String)
        ensures
            text@ == spec_number_text(*self),
    {
        match self {
            JsonNumber::PosInt(n) => crate::text::decimal(*n),
            JsonNumber::NegInt(n) => crate::text::signed_decimal(*n),
            JsonNumber::Float(text) => text.clone(),
        }
    }
}

impl JsonValue {
    /// The member `key` of this object; `None` when this is no object or has
    /// no such member.
    pub fn get(&self, key: &str) -> (result: Option<&JsonValue>)
        ensures
            match result {
                Some(member) => spec_get(*self, key@) == Some(*member),
                None => spec_get(*self, key@) is None,
            },
    {
        match self {
            JsonValue::Object(members) => lookup(members, key),
            _ => None,
        }
    }

    /// The text of this string.
    pub fn as_str(&self) -> (result: Option<&str>)
        ensures
            match *self {
                JsonValue::String(text) => result matches Some(s) && s@ == text@,
                _ => result is None,
            },
    {
        match self {
            JsonValue::String(text) => Some(text.as_str()),
            _ => None,
        }
    }

    /// The value of this boolean.
    pub fn as_bool(&self) -> (result: Option<bool>)
        ensures
            match *self {
                JsonValue::Bool(b) => result == Some(b),
                _ => result is None,
            },
    {
        match self {
            JsonValue::Bool(b) => Some(*b),
            _ => None,
        }
    }

    /// The integer this number holds when it fits an `i64`.
    pub fn as_i64(&self) -> (result: Option<i64>)
        ensures
            match *self {
                JsonValue::Number(n) => result == spec_number_as_i64(n),
                _ => result is None,
            },
    {
        match self {
            JsonValue::Number(n) => n.as_i64(),
            _ => None,
        }
    }

    /// The integer this number holds when it fits a `u64`.
    pub fn as_u64(&self) -> (result: Option<u64>)
        ensures
            match *self {
                JsonValue::Number(n) => result == spec_number_as_u64(n),
                _ => result is None,
            },
    {
        match self {
            JsonValue::Number(n) => n.as_u64(),
            _ => None,
        }
    }
}

/// The number of values nested in a value, itself included.
pub open spec fn json_size(value: JsonValue) -> nat
    decreases value,
{
    match value {
        JsonValue::Array(items) => 1 + json_items_size(items@),
        JsonValue::Object(members) => 1 + json_members_size(members@),
        _ => 1,
    }
}

pub open spec fn json_items_size(items: Seq<JsonValue>) -> nat
    decreases items,
{
    if items.len() == 0 {
        0
    } else {
        json_size(items.last()) + json_items_size(items.drop_last())
    }
}

pub open spec fn json_members_size(members: Seq<(String, JsonValue)>) -> nat
    decreases members,
{
    if members.len() == 0 {
        0
    } else {
        json_size(members.last().1) + json_members_size(members.drop_last())
    }
}

/// `serde_json`'s value type, carried through unseen.
#[verifier::external_type_specification]
#[verifier::external_body]
pub struct ExSerdeJsonValue(serde_json::Value);

/// `serde_json`'s number type, carried through unseen.
#[verifier::external_type_specification]
#[verifier::external_body]
pub struct ExSerdeJsonNumber(serde_json::Number);

/// What `serde_json::from_str` makes of JSON text read as a
/// `serde_json::Value`, in this library's form: the value (an object's
/// members in the key order of `serde_json`'s map, each key once), or the
/// text of its error.
pub uninterp spec fn serde_json_value(text: Seq<char>) -> std::result::Result<JsonValue, Seq<char>>;

/// A `serde_json` number in this library's form: an unsigned integer, a
/// negative integer, or the text `serde_json` renders for any other number.
#[verifier::external_body]
fn number_from(number: &serde_json::Number) -> (result: JsonNumber) {
    match (number.as_u64(), number.as_i64()) {
        (Some(value), _) => JsonNumber::PosInt(value),
        (None, Some(value)) => JsonNumber::NegInt(value),
        (None, None) => JsonNumber::Float(number.to_string()),
    }
}

/// A `serde_json` value in this library's form, variant by variant.
#[verifier::external_body]
fn value_from(value: &serde_json::Value) -> (result: JsonValue) {
    match value {
        serde_json::Value::Null => JsonValue::Null,
        serde_json::Value::Bool(flag) => JsonValue::Bool(*flag),
        serde_json::Value::Number(number) => JsonValue::Number(number_from(number)),
        serde_json::Value::String(text) => JsonValue::String(text.clone()),
        serde_json::Value::Array(items) => JsonValue::Array(items.iter().map(value_from).collect()),
        serde_json::Value::Object(members) => JsonValue::Object(
            members.iter().map(|(key, member)| (key.clone(), value_from(member))).collect(),
        ),
    }
}

/// Reads `json` with `serde_json::from_str` into a `serde_json::Value` and
/// hands it back in this library's form; a failure carries the text of
/// `serde_json::Error`.
#[verifier::external_body]
fn read_json_value(json: &str) -> (result: std::result::Result<JsonValue, String>)
    ensures
        match serde_json_value(json@) {
            Ok(value) => result == Ok::<JsonValue, String>(value),
            Err(message) => result matches Err(text) && text@ == message,
        },
{
    match serde_json::from_str::<serde_json::Value>(json) {
        Ok(value) => Ok(value_from(&value)),
        Err(error) => Err(error.to_string()),
    }
}

/// The JSON document that the bridge's text `json` holds, or the
/// `Serialization` error that names why it could not be read.
pub fn parse_json_value(json: &str) -> (result: Result<JsonValue>)
    ensures
        match serde_json_value(json@) {
            Ok(value) => result == Ok::<JsonValue, SecurityError>(value),
            Err(message) => result matches Err(SecurityError::Serialization(text)) && text@
                == json_read_error_text(message),
        },
{
    match read_json_value(json) {
        Ok(value) => Ok(value),
        Err(message) => Err(
            SecurityError::Serialization(
                crate::text::joined("invalid bridge JSON: ", message.as_str()),
            ),
        ),
    }
}

} // verus!

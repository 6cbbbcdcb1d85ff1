//! Code-signing inspection of the current process, decoded from the Core
//! Foundation values that `SecCodeCopySigningInformation` returns.

use vstd::prelude::*;

use crate::error::{CFError, OsStatus, Result, SecurityError, spec_from_status};
use crate::entries::{entries_map, entry_value, insert_entry, sorted_keys};
use crate::text::spec_decimal;

verus! {

/// A Core Foundation value as read out of a signing-information dictionary.
#[derive(Debug, PartialEq, Eq)]
pub enum CfValue {
    /// A null reference.
    Null,
    /// A `CFBoolean`.
    Boolean(bool),
    /// A `CFNumber`, with its value when it reads as an `i64`.
    Number(Option<i64>),
    /// A `CFString`, with its text when it converts to UTF-8.
    String(Option<String>),
    /// A `CFData`.
    Data(Vec<u8>),
    /// A `CFArray`.
    Array(Vec<CfValue>),
    /// A `CFDictionary`: its keys and values.
    Dictionary(Vec<(CfValue, CfValue)>),
    /// A value of another type, with its `CFTypeID`.
    Other(usize),
}

/// Simplified snapshot of a Core Foundation value embedded in signing metadata.
#[derive(Debug, PartialEq, Eq)]
#[non_exhaustive]
pub enum SigningValue {
    /// A boolean.
    Boolean(bool),
    /// An integer.
    Integer(i64),
    /// A string.
    String(String),
    /// Raw bytes.
    Data(Vec<u8>),
    /// An array.
    Array(Vec<SigningValue>),
    /// A dictionary: its entries, each key once.
    Dictionary(Vec<(String, SigningValue)>),
    /// A value that could not be read, named by this text.
    Unknown(String),
}

/// High-level view of `SecCodeCopySigningInformation` for the current process.
#[derive(Debug, PartialEq, Eq)]
pub struct SigningInformation {
    /// Bundle identifier or executable identifier if the process is signed.
    pub identifier: Option<String>,
    /// Team identifier, when the signature contains one.
    pub team_identifier: Option<String>,
    /// Embedded entitlements, each key once.
    pub entitlements: Vec<(String, SigningValue)>,
    /// Whether the entitlements indicate App Sandbox is enabled.
    pub sandboxed: bool,
    /// Dynamic status word from the code-signing subsystem.
    pub status: Option<u32>,
}

impl SigningInformation {
    /// Whether the process appears to be signed.
    pub fn is_signed(&self) -> (signed: bool)
        ensures
            signed == self.identifier is Some,
    {
        self.identifier.is_some()
    }
}

/// The text for a value of the type with this `CFTypeID`.
pub open spec fn type_id_text(type_id: usize) -> Seq<char> {
    "CFTypeID("@ + spec_decimal(type_id as nat) + ")"@
}

/// The text of a dictionary key that is a string and converts to UTF-8.
pub open spec fn key_text(key: CfValue) -> Option<Seq<char>> {
    match key {
        CfValue::String(Some(text)) => Some(text@),
        _ => None,
    }
}

/// The number of non-null values among the first `n` of `items`.
pub open spec fn present_count(items: Seq<CfValue>, n: int) -> nat
    decreases n,
{
    if n <= 0 {
        0
    } else if items[n - 1] == CfValue::Null {
        present_count(items, n - 1)
    } else {
        present_count(items, n - 1) + 1
    }
}

/// The index of the last entry whose key is the string `key`, or -1.
pub open spec fn last_key_index(entries: Seq<(CfValue, CfValue)>, key: Seq<char>) -> int
    decreases entries.len(),
{
    if entries.len() == 0 {
        -1
    } else if key_text(entries.last().0) == Some(key) {
        entries.len() - 1
    } else {
        last_key_index(entries.drop_last(), key)
    }
}

/// `result` is the signing value that the Core Foundation `value` stands for:
/// null elements of an array are left out, and a dictionary keeps the entries
/// whose key is a string, in key order, the last entry of a key winning.
pub open spec fn cf_value_of(value: CfValue, result: SigningValue) -> bool
    decreases value,
{
    match value {
        CfValue::Null => result matches SigningValue::Unknown(text) && text@ == "null"@,
        CfValue::Boolean(b) => result == SigningValue::Boolean(b),
        CfValue::Number(Some(i)) => result == SigningValue::Integer(i),
        CfValue::Number(None) => result matches SigningValue::Unknown(text) && text@ == "number"@,
        CfValue::String(Some(text)) => result matches SigningValue::String(copy) && copy@ == text@,
        CfValue::String(None) => result matches SigningValue::Unknown(text) && text@ == "string"@,
        CfValue::Data(bytes) => result matches SigningValue::Data(copy) && copy@ == bytes@,
        CfValue::Array(items) => result matches SigningValue::Array(values) && values@.len()
            == present_count(items@, items@.len() as int) && forall|i: int|
            0 <= i < items@.len() && items@[i] != CfValue::Null ==> cf_value_of(
                items@[i],
                values@[#[trigger] present_count(items@, i) as int],
            ),
        CfValue::Dictionary(entries) => result matches SigningValue::Dictionary(map) && sorted_keys(
            map@,
        ) && (forall|k: Seq<char>| #[trigger]
            entries_map(map@).contains_key(k) <==> last_key_index(entries@, k) >= 0) && (forall|
            k: Seq<char>,
        |
            0 <= #[trigger] last_key_index(entries@, k) < entries@.len() ==> cf_value_of(
                entries@[last_key_index(entries@, k)].1,
                entries_map(map@)[k],
            )),
        CfValue::Other(type_id) => result matches SigningValue::Unknown(text) && text@
            == type_id_text(type_id),
    }
}

/// The signing value that a Core Foundation value stands for.
pub fn cf_type_to_value(value: &CfValue) -> (result: SigningValue)
    ensures
        cf_value_of(*value, result),
    decreases value,
{
    match value {
        CfValue::Null => SigningValue::Unknown("null".to_string()),
        CfValue::Boolean(b) => SigningValue::Boolean(*b),
        CfValue::Number(Some(i)) => SigningValue::Integer(*i),
        CfValue::Number(None) => SigningValue::Unknown("number".to_string()),
        CfValue::String(Some(text)) => SigningValue::String(text.clone()),
        CfValue::String(None) => SigningValue::Unknown("string".to_string()),
        CfValue::Data(bytes) => SigningValue::Data(bytes.clone()),
        CfValue::Array(items) => {
            let mut values: Vec<SigningValue> = Vec::new();
            let mut i: usize = 0;
            while i < items.len()
                invariant
                    *value == CfValue::Array(*items),
                    i <= items@.len(),
                    values@.len() == present_count(items@, i as int),
                    forall|j: int|
                        0 <= j < i && items@[j] != CfValue::Null ==> cf_value_of(
                            items@[j],
                            values@[#[trigger] present_count(items@, j) as int],
                        ),
                decreases items@.len() - i,
            {
                let present = match &items[i] {
                    CfValue::Null => false,
                    _ => true,
                };
                proof {
                    lemma_present_count_grows(items@, i as int);
                }
                if present {
                    proof {
                        assert(decreases_to!(*value => value->Array_0));
                        assert(decreases_to!(value->Array_0 => value->Array_0@));
                        assert(decreases_to!(value->Array_0@ => value->Array_0@[i as int]));
                    }
                    let item = cf_type_to_value(&items[i]);
                    values.push(item);
                }
                i = i + 1;
            }
            SigningValue::Array(values)
        },
        CfValue::Dictionary(entries) => {
            proof {
                assert(decreases_to!(*value => value->Dictionary_0));
            }
            SigningValue::Dictionary(cf_dictionary_to_map(entries))
        },
        CfValue::Other(type_id) => {
            let mut text = crate::text::with_decimal("CFTypeID(", *type_id as u64);
            text.append(")");
            SigningValue::Unknown(text)
        },
    }
}

/// Counting one more item adds one exactly when that item is not null, and an
/// earlier non-null item is counted before every later position.
pub proof fn lemma_present_count_grows(items: Seq<CfValue>, i: int)
    requires
        0 <= i < items.len(),
    ensures
        present_count(items, i + 1) == present_count(items, i) + if items[i] == CfValue::Null {
            0nat
        } else {
            1nat
        },
        forall|j: int|
            0 <= j < i && items[j] != CfValue::Null ==> #[trigger] present_count(items, j)
                < present_count(items, i),
    decreases i,
{
    if i > 0 {
        lemma_present_count_grows(items, i - 1);
    }
}

/// The last entry whose key is `key` is at `last_key_index`; when the index is
/// -1 no entry has that key.
pub proof fn lemma_last_key_index(entries: Seq<(CfValue, CfValue)>, key: Seq<char>)
    ensures
        -1 <= last_key_index(entries, key) < entries.len(),
        last_key_index(entries, key) >= 0 ==> key_text(entries[last_key_index(entries, key)].0)
            == Some(key),
    decreases entries.len(),
{
    if entries.len() > 0 {
        lemma_last_key_index(entries.drop_last(), key);
    }
}

/// The entries of a dictionary whose key is a string, as signing values, in
/// key order; the last entry of a key wins.
pub fn cf_dictionary_to_map(entries: &Vec<(CfValue, CfValue)>) -> (map: Vec<(String, SigningValue)>)
    ensures
        sorted_keys(map@),
        forall|k: Seq<char>| #[trigger]
            entries_map(map@).contains_key(k) <==> last_key_index(entries@, k) >= 0,
        forall|k: Seq<char>|
            0 <= #[trigger] last_key_index(entries@, k) < entries@.len() ==> cf_value_of(
                entries@[last_key_index(entries@, k)].1,
                entries_map(map@)[k],
            ),
    decreases entries@,
{
    let mut map: Vec<(String, SigningValue)> = Vec::new();
    let mut i: usize = 0;
    while i < entries.len()
        invariant
            i <= entries@.len(),
            sorted_keys(map@),
            forall|k: Seq<char>| #[trigger]
                entries_map(map@).contains_key(k) <==> last_key_index(
                    entries@.take(i as int),
                    k,
                ) >= 0,
            forall|k: Seq<char>|
                0 <= #[trigger] last_key_index(entries@.take(i as int), k) < i ==> cf_value_of(
                    entries@[last_key_index(entries@.take(i as int), k)].1,
                    entries_map(map@)[k],
                ),
        decreases entries@.len() - i,
    {
        let ghost prefix = entries@.take(i as int);
        let ghost next = entries@.take(i + 1);
        proof {
            assert(next.drop_last() =~= prefix);
        }
        match &entries[i].0 {
            CfValue::String(Some(key)) => {
                let value = cf_type_to_value(&entries[i].1);
                insert_entry(&mut map, key.clone(), value);
                proof {
                    assert forall|k: Seq<char>| #[trigger]
                        entries_map(map@).contains_key(k) <==> last_key_index(next, k) >= 0 by {
                        lemma_last_key_index(prefix, k);
                    }
                    assert forall|k: Seq<char>|
                        0 <= #[trigger] last_key_index(next, k) < i + 1 implies cf_value_of(
                        entries@[last_key_index(next, k)].1,
                        entries_map(map@)[k],
                    ) by {
                        lemma_last_key_index(prefix, k);
                        if k == key@ {
                            assert(last_key_index(next, k) == i);
                        } else {
                            assert(last_key_index(next, k) == last_key_index(prefix, k));
                        }
                    }
                }
            },
            _ => {
                proof {
                    assert forall|k: Seq<char>| #[trigger] last_key_index(next, k) == last_key_index(
                        prefix,
                        k,
                    ) by {
                        lemma_last_key_index(prefix, k);
                    }
                    assert forall|k: Seq<char>|
                        0 <= #[trigger] last_key_index(next, k) < i + 1 implies cf_value_of(
                        entries@[last_key_index(next, k)].1,
                        entries_map(map@)[k],
                    ) by {
                        lemma_last_key_index(prefix, k);
                        assert(last_key_index(next, k) == last_key_index(prefix, k));
                        assert(last_key_index(entries@.take(i as int), k) < i);
                    }
                }
            },
        }
        i = i + 1;
    }
    assert(entries@.take(entries@.len() as int) =~= entries@);
    map
}

/// The text of a string value; `None` for any other value or a string that
/// does not convert.
pub open spec fn string_of(value: CfValue) -> Option<Seq<char>> {
    match value {
        CfValue::String(Some(text)) => Some(text@),
        _ => None,
    }
}

/// `text` holds the text of a string value, or is `None`.
pub open spec fn text_of(value: CfValue, text: Option<String>) -> bool {
    match string_of(value) {
        Some(t) => text matches Some(s) && s@ == t,
        None => text is None,
    }
}

/// The status word of a number value, when it fits a `u32`.
pub open spec fn status_of(value: CfValue) -> Option<u32> {
    match value {
        CfValue::Number(Some(i)) => if 0 <= i <= u32::MAX {
            Some(i as u32)
        } else {
            None
        },
        _ => None,
    }
}

/// `info` is what the values of a signing-information dictionary say: the
/// values under its identifier, team, entitlements and status keys.
pub open spec fn signing_information_of(
    identifier: CfValue,
    team: CfValue,
    entitlements: CfValue,
    status: CfValue,
    info: SigningInformation,
) -> bool {
    &&& text_of(identifier, info.identifier)
    &&& text_of(team, info.team_identifier)
    &&& match entitlements {
        CfValue::Dictionary(_) => cf_value_of(
            entitlements,
            SigningValue::Dictionary(info.entitlements),
        ),
        _ => info.entitlements@.len() == 0,
    }
    &&& sorted_keys(info.entitlements@)
    &&& info.sandboxed == (entries_map(info.entitlements@).contains_key(
        "com.apple.security.app-sandbox"@,
    ) && entries_map(info.entitlements@)["com.apple.security.app-sandbox"@]
        == SigningValue::Boolean(true))
    &&& info.status == status_of(status)
}

/// Each field comes from its own value: the identifier is the identifier's
/// text, the team identifier the team's text, the status the status number
/// when it fits a `u32`; and the code is sandboxed exactly when its
/// entitlements hold "com.apple.security.app-sandbox" as `true`.
pub proof fn lemma_signing_values_roles(
    identifier: CfValue,
    team: CfValue,
    entitlements: CfValue,
    status: CfValue,
    info: SigningInformation,
    text: String,
    number: i64,
)
    requires
        signing_information_of(identifier, team, entitlements, status, info),
    ensures
        identifier == CfValue::String(Some(text)) ==> (info.identifier matches Some(found)
            && found@ == text@),
        identifier == CfValue::Null ==> info.identifier is None,
        team == CfValue::String(Some(text)) ==> (info.team_identifier matches Some(found)
            && found@ == text@),
        team == CfValue::Null ==> info.team_identifier is None,
        0 <= number <= u32::MAX && status == CfValue::Number(Some(number)) ==> info.status
            == Some(number as u32),
        status == CfValue::Null ==> info.status is None,
        entitlements == CfValue::Null ==> info.entitlements@.len() == 0 && !info.sandboxed,
        info.sandboxed == (entries_map(info.entitlements@).contains_key(
            "com.apple.security.app-sandbox"@,
        ) && entries_map(info.entitlements@)["com.apple.security.app-sandbox"@]
            == SigningValue::Boolean(true)),
{
    if entitlements == CfValue::Null {
        assert(entries_map(info.entitlements@) =~= Map::<Seq<char>, SigningValue>::empty());
    }
}

impl SigningInformation {
    /// What the values of a signing-information dictionary say: the values
    /// under `kSecCodeInfoIdentifier`, `kSecCodeInfoTeamIdentifier`,
    /// `kSecCodeInfoEntitlementsDict` and `kSecCodeInfoStatus` (`Null` when absent).
    pub fn from_values(
        identifier: &CfValue,
        team: &CfValue,
        entitlements: &CfValue,
        status: &CfValue,
    ) -> (info: Self)
        ensures
            signing_information_of(*identifier, *team, *entitlements, *status, info),
    {
        let identifier = match identifier {
            CfValue::String(Some(text)) => Some(text.clone()),
            _ => None,
        };
        let team_identifier = match team {
            CfValue::String(Some(text)) => Some(text.clone()),
            _ => None,
        };
        let entitlements = match entitlements {
            CfValue::Dictionary(entries) => cf_dictionary_to_map(entries),
            _ => Vec::new(),
        };
        let sandboxed = match entry_value(&entitlements, "com.apple.security.app-sandbox") {
            Some(SigningValue::Boolean(true)) => true,
            _ => false,
        };
        let status = match status {
            CfValue::Number(Some(i)) => if 0 <= *i && *i <= u32::MAX as i64 {
                Some(*i as u32)
            } else {
                None
            },
            _ => None,
        };
        SigningInformation { identifier, team_identifier, entitlements, sandboxed, status }
    }
}

/// Whether the signing-information query succeeded: a nonzero status becomes
/// the error it names (with `message` as its text), a missing result a Core
/// Foundation error, and a result that is no dictionary an unexpected type.
pub fn signing_query_outcome(status: OsStatus, message: String, present: bool, is_dictionary: bool) -> (result: Result<()>)
    ensures
        status != 0 ==> result == Err::<(), SecurityError>(
            spec_from_status("SecCodeCopySigningInformation", status, message),
        ),
        status == 0 && !present ==> (result matches Err(SecurityError::CoreFoundation(error))
            && error.spec_operation() == "SecCodeCopySigningInformation"),
        status == 0 && present && !is_dictionary ==> result == Err::<(), SecurityError>(
            SecurityError::UnexpectedType {
                operation: "SecCodeCopySigningInformation",
                expected: "CFDictionary",
            },
        ),
        status == 0 && present && is_dictionary ==> result == Ok::<(), SecurityError>(()),
{
    if status != 0 {
        return Err(SecurityError::from_status("SecCodeCopySigningInformation", status, message));
    }
    if !present {
        return Err(SecurityError::CoreFoundation(CFError::new("SecCodeCopySigningInformation")));
    }
    if !is_dictionary {
        return Err(
            SecurityError::UnexpectedType {
                operation: "SecCodeCopySigningInformation",
                expected: "CFDictionary",
            },
        );
    }
    Ok(())
}

/// Owned `SecCodeRef` for a running process.
#[derive(Debug)]
pub struct Code<R> {
    raw: R,
}

impl<R> Code<R> {
    /// The reference this value owns.
    pub closed spec fn spec_raw(&self) -> R {
        self.raw
    }

    /// Takes ownership of a `SecCodeRef`.
    pub fn from_raw(raw: R) -> (code: Self)
        ensures
            code.spec_raw() == raw,
    {
        Code { raw }
    }

    /// Borrow the raw `SecCodeRef`.
    pub fn as_raw(&self) -> (raw: &R)
        ensures
            *raw == self.spec_raw(),
    {
        &self.raw
    }
}

/// The call that `Code::current` makes.
pub const CODE_COPY_SELF: &'static str = "SecCodeCopySelf";

/// What `SecCodeCopySelf` hands back: its status, the framework's message
/// for that status, and the reference it returned, `None` for a null one.
pub type CopySelfReply<R> = (OsStatus, String, Option<R>);

/// `result` is what a `SecCodeCopySelf` reply comes to: the error its
/// nonzero status names; a `CoreFoundation` error for a null reference; else
/// the code that owns the reference.
pub open spec fn copy_self_outcome<R>(result: Result<Code<R>>, reply: CopySelfReply<R>) -> bool {
    if reply.0 != 0 {
        result == Err::<Code<R>, SecurityError>(spec_from_status(CODE_COPY_SELF, reply.0, reply.1))
    } else {
        match reply.2 {
            None => result matches Err(SecurityError::CoreFoundation(error))
                && error.spec_operation() == CODE_COPY_SELF,
            Some(raw) => result matches Ok(code) && code.spec_raw() == raw,
        }
    }
}

impl<R> Code<R> {
    /// The current process as a `SecCodeRef`, from the call `copy_self`.
    pub fn current<F>(copy_self: F) -> (result: Result<Self>)
        where
            F: FnOnce() -> CopySelfReply<R>,
        requires
            copy_self.requires(()),
        ensures
            exists|reply: CopySelfReply<R>|
                copy_self.ensures((), reply) && copy_self_outcome(result, reply),
    {
        let reply = copy_self();
        let ghost kept = reply;
        let (status, message, raw) = reply;
        let result = if status != 0 {
            Err(SecurityError::from_status(CODE_COPY_SELF, status, message))
        } else {
            match raw {
                None => Err(SecurityError::CoreFoundation(CFError::new(CODE_COPY_SELF))),
                Some(raw) => Ok(Code { raw }),
            }
        };
        assert(copy_self_outcome(result, kept));
        result
    }
}

/// A code that `current` hands back owns the reference that the call
/// returned with a zero status: never a null one, and the one that every
/// `as_raw` gives back.
pub proof fn lemma_current_owns_returned_reference<R>(
    result: Result<Code<R>>,
    reply: CopySelfReply<R>,
)
    requires
        copy_self_outcome(result, reply),
        result is Ok,
    ensures
        reply.0 == 0,
        reply.2 == Some(result->Ok_0.spec_raw()),
{
}

} // verus!

//! Code signing: validation flags, code objects and the signing metadata
//! decoded from the bridge's JSON.

use vstd::prelude::*;
use vstd::std_specs::ops::BitOrSpecImpl;
use vstd::utf8::encode_utf8;

use crate::bridge::{handle_outcome, object_outcome, required_handle, CreateReply};
use crate::error::{OsStatus, Result, SecurityError};
use crate::encoding::base64_standard_decode;
use crate::encoding::decode_base64;
use crate::entries::{entries_map, entry_value, insert_entry, sorted_keys};
use crate::bridge::json_read_error_text;
use crate::json::{JsonNumber, last_member_index, lemma_last_member_index, lookup, parse_json_value, serde_json_value, spec_get, spec_lookup, spec_number_as_i64, spec_number_text, JsonValue};
use crate::text::same_text;

verus! {

/// Mirrors `SecCSFlags`.
#[derive(Debug, Clone, Copy, PartialEq, Eq, Hash, Structural)]
pub struct CodeSigningFlags(u32);

impl View for CodeSigningFlags {
    type V = u32;

    closed spec fn view(&self) -> u32 {
        self.0
    }
}

impl CodeSigningFlags {
    /// The bits of all named flags together.
    pub open spec fn all_bits() -> u32 {
        0x31fff
    }

    /// The set that `from_bits` gives for `bits`: the bits themselves when
    /// they name only known flags, nothing otherwise.
    pub closed spec fn spec_from_bits(bits: u32) -> Option<Self> {
        if bits & Self::all_bits() == bits {
            Some(CodeSigningFlags(bits))
        } else {
            None
        }
    }

    /// `kSecCSCheckAllArchitectures`.
    pub fn check_all_architectures() -> (flags: Self)
        ensures
            flags@ == 0x1,
    {
        CodeSigningFlags(0x1)
    }

    /// `kSecCSDoNotValidateExecutable`.
    pub fn do_not_validate_executable() -> (flags: Self)
        ensures
            flags@ == 0x2,
    {
        CodeSigningFlags(0x2)
    }

    /// `kSecCSDoNotValidateResources`.
    pub fn do_not_validate_resources() -> (flags: Self)
        ensures
            flags@ == 0x4,
    {
        CodeSigningFlags(0x4)
    }

    /// `kSecCSBasicValidateOnly`: neither the executable nor the resources.
    pub fn basic_validate_only() -> (flags: Self)
        ensures
            flags@ == 0x6,
    {
        CodeSigningFlags(0x6)
    }

    /// `kSecCSCheckNestedCode`.
    pub fn check_nested_code() -> (flags: Self)
        ensures
            flags@ == 0x8,
    {
        CodeSigningFlags(0x8)
    }

    /// `kSecCSStrictValidate`.
    pub fn strict_validate() -> (flags: Self)
        ensures
            flags@ == 0x10,
    {
        CodeSigningFlags(0x10)
    }

    /// `kSecCSFullReport`.
    pub fn full_report() -> (flags: Self)
        ensures
            flags@ == 0x20,
    {
        CodeSigningFlags(0x20)
    }

    /// `kSecCSCheckGatekeeperArchitectures`, which includes checking all architectures.
    pub fn check_gatekeeper_architectures() -> (flags: Self)
        ensures
            flags@ == 0x41,
    {
        CodeSigningFlags(0x41)
    }

    /// `kSecCSRestrictSymlinks`.
    pub fn restrict_symlinks() -> (flags: Self)
        ensures
            flags@ == 0x80,
    {
        CodeSigningFlags(0x80)
    }

    /// `kSecCSRestrictToAppLike`.
    pub fn restrict_to_app_like() -> (flags: Self)
        ensures
            flags@ == 0x100,
    {
        CodeSigningFlags(0x100)
    }

    /// `kSecCSRestrictSidebandData`.
    pub fn restrict_sideband_data() -> (flags: Self)
        ensures
            flags@ == 0x200,
    {
        CodeSigningFlags(0x200)
    }

    /// `kSecCSUseSoftwareSigningCert`.
    pub fn use_software_signing_cert() -> (flags: Self)
        ensures
            flags@ == 0x400,
    {
        CodeSigningFlags(0x400)
    }

    /// `kSecCSValidatePEH`.
    pub fn validate_peh() -> (flags: Self)
        ensures
            flags@ == 0x800,
    {
        CodeSigningFlags(0x800)
    }

    /// `kSecCSSingleThreaded`.
    pub fn single_threaded() -> (flags: Self)
        ensures
            flags@ == 0x1000,
    {
        CodeSigningFlags(0x1000)
    }

    /// `kSecCSAllowNetworkAccess`.
    pub fn allow_network_access() -> (flags: Self)
        ensures
            flags@ == 0x10000,
    {
        CodeSigningFlags(0x10000)
    }

    /// `kSecCSFastExecutableValidation`.
    pub fn fast_executable_validation() -> (flags: Self)
        ensures
            flags@ == 0x20000,
    {
        CodeSigningFlags(0x20000)
    }

    /// `kSecCSSigningInformation`, a query flag.
    pub fn signing_information() -> (flags: Self)
        ensures
            flags@ == 0x2,
    {
        CodeSigningFlags(0x2)
    }

    /// `kSecCSDynamicInformation`, a query flag.
    pub fn dynamic_information() -> (flags: Self)
        ensures
            flags@ == 0x8,
    {
        CodeSigningFlags(0x8)
    }

    /// `kSecCSUseAllArchitectures`, a query flag.
    pub fn use_all_architectures() -> (flags: Self)
        ensures
            flags@ == 0x1,
    {
        CodeSigningFlags(0x1)
    }

    /// The empty set.
    pub fn empty() -> (flags: Self)
        ensures
            flags@ == 0,
    {
        CodeSigningFlags(0)
    }

    /// The set of every named flag.
    pub fn all() -> (flags: Self)
        ensures
            flags@ == Self::all_bits(),
    {
        CodeSigningFlags(0x31fff)
    }

    /// The raw bits of the set.
    pub fn bits(&self) -> (bits: u32)
        ensures
            bits == self@,
    {
        self.0
    }

    /// The set with exactly `bits`, or `None` when `bits` holds a bit that
    /// names no flag.
    pub fn from_bits(bits: u32) -> (flags: Option<Self>)
        ensures
            flags == Self::spec_from_bits(bits),
            flags is Some <==> bits & Self::all_bits() == bits,
            flags matches Some(f) ==> f@ == bits,
    {
        if bits & 0x31fff == bits {
            Some(CodeSigningFlags(bits))
        } else {
            None
        }
    }

    /// The set with the named flags among `bits`; other bits are dropped.
    pub fn from_bits_truncate(bits: u32) -> (flags: Self)
        ensures
            flags@ == bits & Self::all_bits(),
    {
        CodeSigningFlags(bits & 0x31fff)
    }

    /// The set with exactly `bits`, named or not.
    pub fn from_bits_retain(bits: u32) -> (flags: Self)
        ensures
            flags@ == bits,
    {
        CodeSigningFlags(bits)
    }

    /// Whether no bit is set.
    pub fn is_empty(&self) -> (empty: bool)
        ensures
            empty == (self@ == 0),
    {
        self.0 == 0
    }

    /// Whether every named flag is set.
    pub fn is_all(&self) -> (all: bool)
        ensures
            all == (Self::all_bits() | self@ == self@),
    {
        0x31fff | self.0 == self.0
    }

    /// Whether the two sets share a bit.
    pub fn intersects(&self, other: Self) -> (shared: bool)
        ensures
            shared == (self@ & other@ != 0),
    {
        self.0 & other.0 != 0
    }

    /// Whether every bit of `other` is set here.
    pub fn contains(&self, other: Self) -> (contained: bool)
        ensures
            contained == (self@ & other@ == other@),
    {
        self.0 & other.0 == other.0
    }

    /// Sets the bits of `other`.
    pub fn insert(&mut self, other: Self)
        ensures
            final(self)@ == old(self)@ | other@,
    {
        self.0 = self.0 | other.0;
    }

    /// Clears the bits of `other`.
    pub fn remove(&mut self, other: Self)
        ensures
            final(self)@ == old(self)@ & !other@,
    {
        self.0 = self.0 & !other.0;
    }

    /// Flips the bits of `other`.
    pub fn toggle(&mut self, other: Self)
        ensures
            final(self)@ == old(self)@ ^ other@,
    {
        self.0 = self.0 ^ other.0;
    }

    /// Sets the bits of `other` when `value` holds, clears them otherwise.
    pub fn set(&mut self, other: Self, value: bool)
        ensures
            final(self)@ == if value {
                old(self)@ | other@
            } else {
                old(self)@ & !other@
            },
    {
        if value {
            self.insert(other);
        } else {
            self.remove(other);
        }
    }

    /// The bits set in either set.
    pub fn union(self, other: Self) -> (flags: Self)
        ensures
            flags@ == self@ | other@,
    {
        CodeSigningFlags(self.0 | other.0)
    }

    /// The bits set in both sets.
    pub fn intersection(self, other: Self) -> (flags: Self)
        ensures
            flags@ == self@ & other@,
    {
        CodeSigningFlags(self.0 & other.0)
    }

    /// The bits set here and not in `other`.
    pub fn difference(self, other: Self) -> (flags: Self)
        ensures
            flags@ == self@ & !other@,
    {
        CodeSigningFlags(self.0 & !other.0)
    }

    /// The bits set in exactly one of the sets.
    pub fn symmetric_difference(self, other: Self) -> (flags: Self)
        ensures
            flags@ == self@ ^ other@,
    {
        CodeSigningFlags(self.0 ^ other.0)
    }

    /// The named flags that are not set here.
    pub fn complement(self) -> (flags: Self)
        ensures
            flags@ == !self@ & Self::all_bits(),
    {
        CodeSigningFlags(!self.0 & 0x31fff)
    }
}

impl core::ops::BitOr for CodeSigningFlags {
    type Output = Self;

    fn bitor(self, other: Self) -> (flags: Self) {
        CodeSigningFlags(self.0 | other.0)
    }
}

impl BitOrSpecImpl for CodeSigningFlags {
    open spec fn obeys_bitor_spec() -> bool {
        true
    }

    open spec fn bitor_req(self, other: Self) -> bool {
        true
    }

    closed spec fn bitor_spec(self, other: Self) -> Self {
        CodeSigningFlags(self.0 | other.0)
    }
}

/// A set of named flags comes back unchanged through its bits.
pub proof fn lemma_code_signing_flags_bits_round_trip(flags: CodeSigningFlags)
    requires
        flags@ & CodeSigningFlags::all_bits() == flags@,
    ensures
        CodeSigningFlags::spec_from_bits(flags@) == Some(flags),
{
}

/// A union holds every bit of both of its operands.
pub proof fn lemma_code_signing_flags_union_contains(a: CodeSigningFlags, b: CodeSigningFlags)
    ensures
        (a@ | b@) & a@ == a@,
        (a@ | b@) & b@ == b@,
{
    crate::bitset::lemma_u32_union_contains(a@, b@);
}

/// Removing a set leaves none of its bits.
pub proof fn lemma_code_signing_flags_remove_clears(a: CodeSigningFlags, b: CodeSigningFlags)
    ensures
        (a@ & !b@) & b@ == 0,
{
    crate::bitset::lemma_u32_remove_clears(a@, b@);
}

/// A value embedded in signing metadata.
#[derive(Debug, PartialEq, Eq)]
#[non_exhaustive]
pub enum SigningValue {
    /// A boolean.
    Boolean(bool),
    /// An integer that fits an `i64`.
    Integer(i64),
    /// A string.
    String(String),
    /// Raw bytes.
    Data(Vec<u8>),
    /// An array.
    Array(Vec<SigningValue>),
    /// A dictionary: its entries, each key once.
    Dictionary(Vec<(String, SigningValue)>),
    /// A value of another kind, named by this text.
    Unknown(String),
}

/// What a code object's signing metadata says.
#[derive(Debug, PartialEq, Eq)]
pub struct SigningInformation {
    /// Bundle or executable identifier, when the code is signed.
    pub identifier: Option<String>,
    /// Team identifier, when the signature carries one.
    pub team_identifier: Option<String>,
    /// The embedded entitlements: each key once.
    pub entitlements: Vec<(String, SigningValue)>,
    /// Whether the entitlements turn on the App Sandbox.
    pub sandboxed: bool,
    /// The dynamic status word, when it fits a `u32`.
    pub status: Option<u32>,
}

impl SigningInformation {
    /// Whether the code appears to be signed: it has an identifier.
    pub fn is_signed(&self) -> (signed: bool)
        ensures
            signed == self.identifier is Some,
    {
        self.identifier.is_some()
    }
}

/// The bytes that a `{"_type": "data", "base64": ...}` object stands for.
pub open spec fn spec_wrapped_data(members: Seq<(String, JsonValue)>) -> Option<Seq<u8>> {
    match spec_lookup(members, "_type"@) {
        Some(JsonValue::String(kind)) => if kind@ == "data"@ {
            match spec_lookup(members, "base64"@) {
                Some(JsonValue::String(text)) => match base64_standard_decode(encode_utf8(text@)) {
                    Ok(bytes) => Some(bytes),
                    Err(_) => None,
                },
                _ => None,
            }
        } else {
            None
        },
        _ => None,
    }
}

/// `result` is the signing value that the JSON `value` stands for.
pub open spec fn signing_value_of(value: JsonValue, result: SigningValue) -> bool
    decreases value,
{
    match value {
        JsonValue::Null => result matches SigningValue::Unknown(text) && text@ == "null"@,
        JsonValue::Bool(b) => result == SigningValue::Boolean(b),
        JsonValue::Number(n) => match spec_number_as_i64(n) {
            Some(i) => result == SigningValue::Integer(i),
            None => result matches SigningValue::Unknown(text) && text@ == spec_number_text(n),
        },
        JsonValue::String(text) => result matches SigningValue::String(copy) && copy@ == text@,
        JsonValue::Array(items) => result matches SigningValue::Array(values) && values@.len()
            == items@.len() && forall|i: int|
            0 <= i < items@.len() ==> signing_value_of(items@[i], #[trigger] values@[i]),
        JsonValue::Object(members) => match spec_wrapped_data(members@) {
            Some(bytes) => result matches SigningValue::Data(data) && data@ == bytes,
            None => result matches SigningValue::Dictionary(entries) && sorted_keys(entries@)
                && (forall|k: Seq<char>| #[trigger]
                entries_map(entries@).contains_key(k) <==> last_member_index(members@, k) >= 0)
                && (forall|k: Seq<char>|
                0 <= #[trigger] last_member_index(members@, k) < members@.len()
                    ==> signing_value_of(
                    members@[last_member_index(members@, k)].1,
                    entries_map(entries@)[k],
                )),
        },
    }
}

/// `entries` are the signing values of `members` under the same keys, in key
/// order; a key that several members share takes the value of the last.
pub open spec fn signing_entries_of(
    members: Seq<(String, JsonValue)>,
    entries: Seq<(String, SigningValue)>,
) -> bool {
    &&& sorted_keys(entries)
    &&& forall|k: Seq<char>| #[trigger]
        entries_map(entries).contains_key(k) <==> last_member_index(members, k) >= 0
    &&& forall|k: Seq<char>|
        0 <= #[trigger] last_member_index(members, k) < members.len() ==> signing_value_of(
            members[last_member_index(members, k)].1,
            entries_map(entries)[k],
        )
}

/// The value of the first of `keys` that the object `value` has.
pub open spec fn spec_find(value: JsonValue, keys: Seq<Seq<char>>) -> Option<JsonValue>
    decreases keys.len(),
{
    if keys.len() == 0 {
        None
    } else {
        match spec_get(value, keys[0]) {
            Some(found) => Some(found),
            None => spec_find(value, keys.drop_first()),
        }
    }
}

/// The keys under which the metadata names the identifier.
pub open spec fn identifier_keys() -> Seq<Seq<char>> {
    seq!["identifier"@, "Identifier"@]
}

/// The keys under which the metadata names the team.
pub open spec fn team_keys() -> Seq<Seq<char>> {
    seq!["teamid"@, "TeamIdentifier"@, "teamIdentifier"@]
}

/// The keys under which the metadata holds the entitlements.
pub open spec fn entitlement_keys() -> Seq<Seq<char>> {
    seq!["entitlements-dict"@, "EntitlementsDict"@, "entitlements"@, "Entitlements"@]
}

/// The keys under which the metadata holds the status word.
pub open spec fn status_keys() -> Seq<Seq<char>> {
    seq!["status"@, "Status"@]
}

/// `text` is the string found, or `None` when what was found is no string.
pub open spec fn text_found(found: Option<JsonValue>, text: Option<String>) -> bool {
    match found {
        Some(JsonValue::String(t)) => text matches Some(s) && s@ == t@,
        _ => text is None,
    }
}

/// The status word that was found, when it is an integer that fits a `u32`.
pub open spec fn status_found(found: Option<JsonValue>) -> Option<u32> {
    match found {
        Some(JsonValue::Number(n)) => match spec_number_as_i64(n) {
            Some(i) => if 0 <= i <= u32::MAX {
                Some(i as u32)
            } else {
                None
            },
            None => None,
        },
        _ => None,
    }
}

/// `info` is what the signing metadata `value` says.
pub open spec fn signing_information_of(value: JsonValue, info: SigningInformation) -> bool {
    &&& text_found(spec_find(value, identifier_keys()), info.identifier)
    &&& text_found(spec_find(value, team_keys()), info.team_identifier)
    &&& match spec_find(value, entitlement_keys()) {
        Some(JsonValue::Object(members)) => {
            &&& signing_entries_of(members@, info.entitlements@)
            &&& info.sandboxed == (entries_map(info.entitlements@).contains_key(
                "com.apple.security.app-sandbox"@,
            ) && entries_map(info.entitlements@)["com.apple.security.app-sandbox"@]
                == SigningValue::Boolean(true))
        },
        _ => info.entitlements@.len() == 0 && !info.sandboxed,
    }
    &&& info.status == status_found(spec_find(value, status_keys()))
}

/// Where signing metadata is read from: the identifier is the string under
/// "identifier", else under "Identifier"; the team identifier the string
/// under "teamid" (`kSecCodeInfoTeamIdentifier`), else "TeamIdentifier", else
/// "teamIdentifier"; the status the number under "status", else "Status",
/// when it fits a `u32`; the entitlements the object under
/// "entitlements-dict", else "EntitlementsDict", else "entitlements", else
/// "Entitlements". Metadata with none of a field's keys has no such field.
/// The code is sandboxed exactly when its entitlements hold
/// "com.apple.security.app-sandbox" as `true`.
pub proof fn lemma_signing_metadata_keys(
    value: JsonValue,
    info: SigningInformation,
    text: String,
    number: u64,
    members: Vec<(String, JsonValue)>,
)
    requires
        signing_information_of(value, info),
    ensures
        spec_get(value, "identifier"@) == Some(JsonValue::String(text)) ==> (
        info.identifier matches Some(found) && found@ == text@),
        spec_get(value, "identifier"@) is None && spec_get(value, "Identifier"@) == Some(
            JsonValue::String(text),
        ) ==> (info.identifier matches Some(found) && found@ == text@),
        spec_get(value, "identifier"@) is None && spec_get(value, "Identifier"@) is None
            ==> info.identifier is None,
        spec_get(value, "teamid"@) == Some(JsonValue::String(text)) ==> (
        info.team_identifier matches Some(found) && found@ == text@),
        spec_get(value, "teamid"@) is None && spec_get(value, "TeamIdentifier"@) == Some(
            JsonValue::String(text),
        ) ==> (info.team_identifier matches Some(found) && found@ == text@),
        spec_get(value, "teamid"@) is None && spec_get(value, "TeamIdentifier"@) is None
            && spec_get(value, "teamIdentifier"@) == Some(JsonValue::String(text)) ==> (
        info.team_identifier matches Some(found) && found@ == text@),
        spec_get(value, "teamid"@) is None && spec_get(value, "TeamIdentifier"@) is None
            && spec_get(value, "teamIdentifier"@) is None ==> info.team_identifier is None,
        number <= u32::MAX && spec_get(value, "status"@) == Some(
            JsonValue::Number(JsonNumber::PosInt(number)),
        ) ==> info.status == Some(number as u32),
        number <= u32::MAX && spec_get(value, "status"@) is None && spec_get(value, "Status"@)
            == Some(JsonValue::Number(JsonNumber::PosInt(number))) ==> info.status == Some(
            number as u32,
        ),
        spec_get(value, "status"@) is None && spec_get(value, "Status"@) is None
            ==> info.status is None,
        spec_get(value, "entitlements-dict"@) == Some(JsonValue::Object(members))
            ==> signing_entries_of(members@, info.entitlements@),
        spec_get(value, "entitlements-dict"@) is None && spec_get(value, "EntitlementsDict"@)
            == Some(JsonValue::Object(members)) ==> signing_entries_of(
            members@,
            info.entitlements@,
        ),
        spec_get(value, "entitlements-dict"@) is None && spec_get(value, "EntitlementsDict"@)
            is None && spec_get(value, "entitlements"@) == Some(JsonValue::Object(members))
            ==> signing_entries_of(members@, info.entitlements@),
        spec_get(value, "entitlements-dict"@) is None && spec_get(value, "EntitlementsDict"@)
            is None && spec_get(value, "entitlements"@) is None && spec_get(
            value,
            "Entitlements"@,
        ) == Some(JsonValue::Object(members)) ==> signing_entries_of(
            members@,
            info.entitlements@,
        ),
        info.sandboxed == (entries_map(info.entitlements@).contains_key(
            "com.apple.security.app-sandbox"@,
        ) && entries_map(info.entitlements@)["com.apple.security.app-sandbox"@]
            == SigningValue::Boolean(true)),
{
    reveal_with_fuel(spec_find, 5);
    assert(identifier_keys().drop_first() =~= seq!["Identifier"@]);
    assert(identifier_keys().drop_first().drop_first() =~= Seq::<Seq<char>>::empty());
    assert(team_keys().drop_first() =~= seq!["TeamIdentifier"@, "teamIdentifier"@]);
    assert(team_keys().drop_first().drop_first() =~= seq!["teamIdentifier"@]);
    assert(team_keys().drop_first().drop_first().drop_first() =~= Seq::<Seq<char>>::empty());
    assert(status_keys().drop_first() =~= seq!["Status"@]);
    assert(status_keys().drop_first().drop_first() =~= Seq::<Seq<char>>::empty());
    assert(entitlement_keys().drop_first() =~= seq!["EntitlementsDict"@, "entitlements"@, "Entitlements"@]);
    assert(entitlement_keys().drop_first().drop_first() =~= seq!["entitlements"@, "Entitlements"@]);
    assert(entitlement_keys().drop_first().drop_first().drop_first() =~= seq!["Entitlements"@]);
}

/// The value of the first of `keys` that the object `value` has.
pub fn find<'a>(value: &'a JsonValue, keys: &[&str]) -> (result: Option<&'a JsonValue>)
    ensures
        match spec_find(*value, keys@.map_values(|k: &str| k@)) {
            Some(found) => result matches Some(r) && *r == found,
            None => result is None,
        },
{
    let ghost names = keys@.map_values(|k: &str| k@);
    let mut i: usize = 0;
    assert(names.skip(0) =~= names);
    while i < keys.len()
        invariant
            i <= keys@.len(),
            names == keys@.map_values(|k: &str| k@),
            spec_find(*value, names) == spec_find(*value, names.skip(i as int)),
        decreases keys@.len() - i,
    {
        assert(names.skip(i as int).drop_first() =~= names.skip(i + 1));
        assert(names.skip(i as int)[0] == keys@[i as int]@);
        match value.get(keys[i]) {
            Some(found) => return Some(found),
            None => {},
        }
        i = i + 1;
    }
    None
}

/// The string under the first of `keys` that the object has; `None` when
/// that value is no string.
pub fn find_string(value: &JsonValue, keys: &[&str]) -> (result: Option<String>)
    ensures
        text_found(spec_find(*value, keys@.map_values(|k: &str| k@)), result),
{
    match find(value, keys) {
        Some(found) => match found.as_str() {
            Some(text) => Some(text.to_string()),
            None => None,
        },
        None => None,
    }
}

/// The object under the first of `keys` that the object has; `None` when
/// that value is no object.
pub fn find_object<'a>(value: &'a JsonValue, keys: &[&str]) -> (result: Option<
    &'a Vec<(String, JsonValue)>,
>)
    ensures
        match spec_find(*value, keys@.map_values(|k: &str| k@)) {
            Some(JsonValue::Object(members)) => result matches Some(r) && *r == members,
            _ => result is None,
        },
{
    match find(value, keys) {
        Some(JsonValue::Object(members)) => Some(members),
        _ => None,
    }
}

/// The integer under the first of `keys` that the object has, when it fits an `i64`.
pub fn find_integer(value: &JsonValue, keys: &[&str]) -> (result: Option<i64>)
    ensures
        result == match spec_find(*value, keys@.map_values(|k: &str| k@)) {
            Some(JsonValue::Number(n)) => spec_number_as_i64(n),
            _ => None,
        },
{
    match find(value, keys) {
        Some(found) => found.as_i64(),
        None => None,
    }
}

impl SigningInformation {
    /// What the bridge's signing metadata for a static code object says.
    pub fn from_json(value: &JsonValue) -> (info: Self)
        ensures
            signing_information_of(*value, info),
    {
        let identifier_names = ["identifier", "Identifier"];
        let team_names = ["teamid", "TeamIdentifier", "teamIdentifier"];
        let entitlement_names = [
            "entitlements-dict",
            "EntitlementsDict",
            "entitlements",
            "Entitlements",
        ];
        let status_names = ["status", "Status"];
        assert(identifier_names@.map_values(|k: &str| k@) =~= identifier_keys());
        assert(team_names@.map_values(|k: &str| k@) =~= team_keys());
        assert(entitlement_names@.map_values(|k: &str| k@) =~= entitlement_keys());
        assert(status_names@.map_values(|k: &str| k@) =~= status_keys());
        let identifier = find_string(value, &identifier_names);
        let team_identifier = find_string(value, &team_names);
        let (entitlements, sandboxed) = match find_object(value, &entitlement_names) {
            Some(members) => {
                let entitlements = signing_entries(members);
                let sandboxed = match entry_value(&entitlements, "com.apple.security.app-sandbox") {
                    Some(SigningValue::Boolean(true)) => true,
                    _ => false,
                };
                (entitlements, sandboxed)
            },
            None => (Vec::new(), false),
        };
        let status = match find_integer(value, &status_names) {
            Some(i) => if 0 <= i && i <= u32::MAX as i64 {
                Some(i as u32)
            } else {
                None
            },
            None => None,
        };
        SigningInformation { identifier, team_identifier, entitlements, sandboxed, status }
    }
}

/// The bytes that a `{"_type": "data", "base64": ...}` object stands for;
/// `None` for any other object or for base64 text that does not decode.
pub fn wrapped_data(members: &Vec<(String, JsonValue)>) -> (result: Option<Vec<u8>>)
    ensures
        match spec_wrapped_data(members@) {
            Some(bytes) => result matches Some(data) && data@ == bytes,
            None => result is None,
        },
{
    let kind = match lookup(members, "_type") {
        Some(kind) => kind,
        None => return None,
    };
    let kind = match kind.as_str() {
        Some(kind) => kind,
        None => return None,
    };
    if !same_text(kind, "data") {
        return None;
    }
    let text = match lookup(members, "base64") {
        Some(text) => text,
        None => return None,
    };
    let text = match text.as_str() {
        Some(text) => text,
        None => return None,
    };
    match decode_base64(text.as_bytes()) {
        Ok(bytes) => Some(bytes),
        Err(_) => None,
    }
}

/// The signing value that a JSON value stands for.
pub fn signing_value(value: &JsonValue) -> (result: SigningValue)
    ensures
        signing_value_of(*value, result),
    decreases value,
{
    match value {
        JsonValue::Bool(b) => SigningValue::Boolean(*b),
        JsonValue::Number(n) => match n.as_i64() {
            Some(i) => SigningValue::Integer(i),
            None => SigningValue::Unknown(n.to_string()),
        },
        JsonValue::String(text) => SigningValue::String(text.clone()),
        JsonValue::Array(items) => {
            let mut values: Vec<SigningValue> = Vec::new();
            let mut i: usize = 0;
            while i < items.len()
                invariant
                    *value == JsonValue::Array(*items),
                    i <= items@.len(),
                    values@.len() == i,
                    forall|j: int| 0 <= j < i ==> signing_value_of(items@[j], #[trigger] values@[j]),
                decreases items@.len() - i,
            {
                proof {
                    assert(decreases_to!(*value => value->Array_0));
                    assert(decreases_to!(value->Array_0 => value->Array_0@));
                    assert(decreases_to!(value->Array_0@ => value->Array_0@[i as int]));
                }
                let item = signing_value(&items[i]);
                values.push(item);
                i = i + 1;
            }
            SigningValue::Array(values)
        },
        JsonValue::Object(members) => match wrapped_data(members) {
            Some(data) => SigningValue::Data(data),
            None => {
                proof {
                    assert(decreases_to!(*value => value->Object_0));
                }
                SigningValue::Dictionary(signing_entries(members))
            },
        },
        JsonValue::Null => SigningValue::Unknown("null".to_string()),
    }
}

/// The signing values of an object's members, under the same keys, in key order.
pub fn signing_entries(members: &Vec<(String, JsonValue)>) -> (entries: Vec<(String, SigningValue)>)
    ensures
        signing_entries_of(members@, entries@),
    decreases members@,
{
    let mut entries: Vec<(String, SigningValue)> = Vec::new();
    let mut i: usize = 0;
    while i < members.len()
        invariant
            i <= members@.len(),
            signing_entries_of(members@.take(i as int), entries@),
        decreases members@.len() - i,
    {
        let value = signing_value(&members[i].1);
        let ghost before = entries@;
        let ghost prefix = members@.take(i as int);
        let ghost next = members@.take(i + 1);
        insert_entry(&mut entries, members[i].0.clone(), value);
        proof {
            assert(next.drop_last() =~= prefix);
            assert forall|k: Seq<char>| #[trigger]
                entries_map(entries@).contains_key(k) <==> last_member_index(next, k) >= 0 by {
                lemma_last_member_index(prefix, k);
            }
            assert forall|k: Seq<char>|
                0 <= #[trigger] last_member_index(next, k) < next.len() implies signing_value_of(
                next[last_member_index(next, k)].1,
                entries_map(entries@)[k],
            ) by {
                lemma_last_member_index(prefix, k);
            }
        }
        i = i + 1;
    }
    assert(members@.take(members@.len() as int) =~= members@);
    entries
}

/// How a code object was looked up: which decides whether a task can be
/// made for it.
#[derive(Debug, Clone, Copy, PartialEq, Eq, Structural)]
pub enum CodeLookup {
    /// The code of the current process.
    CurrentProcess,
    /// A peer looked up by its audit token.
    AuditToken,
    /// Any other lookup: a host, a guest by attributes, a PID.
    Other,
}

/// Wraps `SecCodeRef`.
#[derive(Debug)]
pub struct Code<H> {
    handle: H,
    lookup: CodeLookup,
}

impl<H> Code<H> {
    /// The bridge handle this value holds.
    pub closed spec fn spec_handle(&self) -> H {
        self.handle
    }

    /// How this code was looked up.
    pub closed spec fn spec_lookup_kind(&self) -> CodeLookup {
        self.lookup
    }

    /// Wraps a handle that the bridge returned for a lookup other than the
    /// current process or an audit token.
    pub fn from_handle(handle: H) -> (value: Self)
        ensures
            value.spec_handle() == handle,
            value.spec_lookup_kind() == CodeLookup::Other,
    {
        Code { handle: handle, lookup: CodeLookup::Other }
    }

    /// Wraps a handle that the bridge returned for the given kind of lookup.
    pub fn from_lookup(handle: H, lookup: CodeLookup) -> (value: Self)
        ensures
            value.spec_handle() == handle,
            value.spec_lookup_kind() == lookup,
    {
        Code { handle: handle, lookup: lookup }
    }

    /// The bridge handle this value holds.
    pub fn handle(&self) -> (handle: &H)
        ensures
            *handle == self.spec_handle(),
    {
        &self.handle
    }

    /// How this code was looked up.
    pub fn lookup(&self) -> (lookup: CodeLookup)
        ensures
            lookup == self.spec_lookup_kind(),
    {
        self.lookup
    }
}
/// Wraps `SecRequirementRef`.
#[derive(Debug)]
pub struct Requirement<H> {
    handle: H,
}

impl<H> Requirement<H> {
    /// The bridge handle this value holds.
    pub closed spec fn spec_handle(&self) -> H {
        self.handle
    }

    /// Wraps a handle that the bridge returned.
    pub fn from_handle(handle: H) -> (value: Self)
        ensures
            value.spec_handle() == handle,
    {
        Requirement { handle: handle }
    }

    /// The bridge handle this value holds.
    pub fn handle(&self) -> (handle: &H)
        ensures
            *handle == self.spec_handle(),
    {
        &self.handle
    }
}
/// Wraps `SecStaticCodeRef`.
#[derive(Debug)]
pub struct StaticCode<H> {
    handle: H,
}

impl<H> StaticCode<H> {
    /// The bridge handle this value holds.
    pub closed spec fn spec_handle(&self) -> H {
        self.handle
    }

    /// Wraps a handle that the bridge returned.
    pub fn from_handle(handle: H) -> (value: Self)
        ensures
            value.spec_handle() == handle,
    {
        StaticCode { handle: handle }
    }

    /// The bridge handle this value holds.
    pub fn handle(&self) -> (handle: &H)
        ensures
            *handle == self.spec_handle(),
    {
        &self.handle
    }
}
/// Wraps `SecTaskRef`.
#[derive(Debug)]
pub struct Task<H> {
    handle: H,
}

impl<H> Task<H> {
    /// The bridge handle this value holds.
    pub closed spec fn spec_handle(&self) -> H {
        self.handle
    }

    /// Wraps a handle that the bridge returned.
    pub fn from_handle(handle: H) -> (value: Self)
        ensures
            value.spec_handle() == handle,
    {
        Task { handle: handle }
    }

    /// The bridge handle this value holds.
    pub fn handle(&self) -> (handle: &H)
        ensures
            *handle == self.spec_handle(),
    {
        &self.handle
    }
}

/// The bridge operation that looks up the current process's code.
pub const CODE_COPY_SELF: &'static str = "security_code_copy_self";

/// The bridge operation that creates a task for the current process.
pub const TASK_CREATE_FROM_SELF: &'static str = "security_task_create_from_self";

/// The bridge operation that creates a task for a peer's audit token.
pub const TASK_CREATE_WITH_AUDIT_TOKEN: &'static str = "security_task_create_with_audit_token";

/// The bridge operation that makes the task for code looked up in this way.
pub open spec fn task_operation(lookup: CodeLookup) -> &'static str {
    match lookup {
        CodeLookup::AuditToken => TASK_CREATE_WITH_AUDIT_TOKEN,
        _ => TASK_CREATE_FROM_SELF,
    }
}

/// The handle a code result holds, or its error.
pub open spec fn code_handle<H>(result: Result<Code<H>>) -> Result<H> {
    match result {
        Ok(code) => Ok(code.spec_handle()),
        Err(error) => Err(error),
    }
}

/// The handle a task result holds, or its error.
pub open spec fn task_handle<H>(result: Result<Task<H>>) -> Result<H> {
    match result {
        Ok(task) => Ok(task.spec_handle()),
        Err(error) => Err(error),
    }
}

impl<H> Code<H> {
    /// The code of the current process, looked up by the bridge call `copy_self`.
    pub fn current<F>(copy_self: F) -> (result: Result<Self>)
        where
            F: FnOnce() -> CreateReply<H>,
        requires
            copy_self.requires(()),
        ensures
            exists|reply: CreateReply<H>|
                copy_self.ensures((), reply) && handle_outcome(
                    code_handle(result),
                    CODE_COPY_SELF,
                    reply.0,
                    reply.1,
                    reply.2,
                ),
            result matches Ok(code) ==> code.spec_lookup_kind() == CodeLookup::CurrentProcess,
    {
        let (handle, status, error_text) = copy_self();
        match required_handle(CODE_COPY_SELF, handle, status, error_text) {
            Ok(handle) => Ok(Code { handle, lookup: CodeLookup::CurrentProcess }),
            Err(error) => Err(error),
        }
    }

    /// The task of the process this code runs in, made by the bridge call
    /// `create`, which is told how the code was looked up. Only code of the
    /// current process or looked up by audit token has a task; any other
    /// code gets `Unsupported` without a call.
    pub fn task<F>(&self, create: F) -> (result: Result<Task<H>>)
        where
            F: FnOnce(CodeLookup) -> CreateReply<H>,
        requires
            self.spec_lookup_kind() != CodeLookup::Other ==> create.requires(
                (self.spec_lookup_kind(),),
            ),
        ensures
            self.spec_lookup_kind() == CodeLookup::Other ==> result matches Err(
                SecurityError::Unsupported(_),
            ),
            self.spec_lookup_kind() != CodeLookup::Other ==> exists|reply: CreateReply<H>|
                create.ensures((self.spec_lookup_kind(),), reply) && handle_outcome(
                    task_handle(result),
                    task_operation(self.spec_lookup_kind()),
                    reply.0,
                    reply.1,
                    reply.2,
                ),
    {
        match self.lookup {
            CodeLookup::Other => Err(
                SecurityError::Unsupported(
                    "a task needs code looked up by audit token or the current process".to_string(),
                ),
            ),
            CodeLookup::CurrentProcess => {
                let reply = create(CodeLookup::CurrentProcess);
                let ghost kept = reply;
                let (handle, status, error_text) = reply;
                let result = match required_handle(TASK_CREATE_FROM_SELF, handle, status, error_text) {
                    Ok(handle) => Ok(Task { handle }),
                    Err(error) => Err(error),
                };
                assert(create.ensures((self.spec_lookup_kind(),), kept));
                assert(task_operation(self.spec_lookup_kind()) == TASK_CREATE_FROM_SELF);
                assert(handle_outcome(task_handle(result), TASK_CREATE_FROM_SELF, kept.0, kept.1, kept.2));
                result
            },
            CodeLookup::AuditToken => {
                let reply = create(CodeLookup::AuditToken);
                let ghost kept = reply;
                let (handle, status, error_text) = reply;
                let result = match required_handle(TASK_CREATE_WITH_AUDIT_TOKEN, handle, status, error_text) {
                    Ok(handle) => Ok(Task { handle }),
                    Err(error) => Err(error),
                };
                assert(create.ensures((self.spec_lookup_kind(),), kept));
                assert(task_operation(self.spec_lookup_kind()) == TASK_CREATE_WITH_AUDIT_TOKEN);
                assert(handle_outcome(task_handle(result), TASK_CREATE_WITH_AUDIT_TOKEN, kept.0, kept.1, kept.2));
                result
            },
        }
    }
}

impl<H> Task<H> {
    /// The task of the current process, made by the bridge call `create`.
    pub fn current<F>(create: F) -> (result: Result<Self>)
        where
            F: FnOnce() -> CreateReply<H>,
        requires
            create.requires(()),
        ensures
            exists|reply: CreateReply<H>|
                create.ensures((), reply) && handle_outcome(
                    task_handle(result),
                    TASK_CREATE_FROM_SELF,
                    reply.0,
                    reply.1,
                    reply.2,
                ),
    {
        let (handle, status, error_text) = create();
        match required_handle(TASK_CREATE_FROM_SELF, handle, status, error_text) {
            Ok(handle) => Ok(Task { handle }),
            Err(error) => Err(error),
        }
    }
}

/// The bridge operation that copies a static code object's signing metadata.
pub const COPY_SIGNING_INFORMATION: &'static str = "security_static_code_copy_signing_information";

/// What the bridge call that copies signing metadata hands back: the JSON
/// text read from the returned string object (or the failure to read it)
/// when there is one, the status and the text of the error object.
pub type JsonReply = (Option<Result<String>>, OsStatus, Result<Option<String>>);

/// `result` is what a reply carrying signing metadata comes to: the metadata
/// decoded from the document that the text holds, or the error of reading
/// the text or the document; without a text, the error its status names, or
/// `InvalidArgument` when the status is zero.
pub open spec fn signing_information_outcome(
    result: Result<SigningInformation>,
    reply: JsonReply,
) -> bool {
    match reply.0 {
        Some(Ok(text)) => match serde_json_value(text@) {
            Ok(value) => result matches Ok(info) && signing_information_of(value, info),
            Err(message) => result matches Err(SecurityError::Serialization(error_text))
                && error_text@ == json_read_error_text(message),
        },
        _ => object_outcome(
            result,
            COPY_SIGNING_INFORMATION,
            reply.0,
            reply.1,
            reply.2,
            |info: SigningInformation, text: String| false,
        ),
    }
}

impl<H> StaticCode<H> {
    /// The signing metadata of this code, copied by the bridge call `copy`,
    /// which is handed this code's handle.
    pub fn signing_information<F>(&self, copy: F) -> (result: Result<SigningInformation>)
        where
            F: FnOnce(&H) -> JsonReply,
        requires
            copy.requires((&self.spec_handle(),)),
        ensures
            exists|reply: JsonReply|
                copy.ensures((&self.spec_handle(),), reply) && signing_information_outcome(
                    result,
                    reply,
                ),
    {
        let reply = copy(&self.handle);
        let ghost kept = reply;
        let (document, status, error_text) = reply;
        let result = match required_handle(COPY_SIGNING_INFORMATION, document, status, error_text) {
            Ok(Ok(text)) => match parse_json_value(text.as_str()) {
                Ok(value) => Ok(SigningInformation::from_json(&value)),
                Err(error) => Err(error),
            },
            Ok(Err(read_error)) => Err(read_error),
            Err(error) => Err(error),
        };
        assert(signing_information_outcome(result, kept));
        result
    }
}

/// The bridge operation that copies the static code of a code object.
pub const CODE_COPY_STATIC_CODE: &'static str = "security_code_copy_static_code";

/// The handle a static code result holds, or its error.
pub open spec fn static_code_handle<H>(result: Result<StaticCode<H>>) -> Result<H> {
    match result {
        Ok(code) => Ok(code.spec_handle()),
        Err(error) => Err(error),
    }
}

impl<H> Code<H> {
    /// The static code of this code, copied by the bridge call `copy_static`,
    /// which is handed this code's handle.
    pub fn static_code<F>(&self, copy_static: F) -> (result: Result<StaticCode<H>>)
        where
            F: FnOnce(&H) -> CreateReply<H>,
        requires
            copy_static.requires((&self.spec_handle(),)),
        ensures
            exists|reply: CreateReply<H>|
                copy_static.ensures((&self.spec_handle(),), reply) && handle_outcome(
                    static_code_handle(result),
                    CODE_COPY_STATIC_CODE,
                    reply.0,
                    reply.1,
                    reply.2,
                ),
    {
        let reply = copy_static(&self.handle);
        let ghost kept = reply;
        let (handle, status, error_text) = reply;
        let result = match required_handle(CODE_COPY_STATIC_CODE, handle, status, error_text) {
            Ok(handle) => Ok(StaticCode::from_handle(handle)),
            Err(error) => Err(error),
        };
        assert(handle_outcome(static_code_handle(result), CODE_COPY_STATIC_CODE, kept.0, kept.1, kept.2));
        result
    }

    /// The signing metadata of this code: its static code, copied by
    /// `copy_static`, then that code's metadata, copied by `copy`. A failure
    /// of the first call is returned as it is.
    pub fn signing_information<S, F>(&self, copy_static: S, copy: F) -> (result: Result<
        SigningInformation,
    >)
        where
            S: FnOnce(&H) -> CreateReply<H>,
            F: FnOnce(&H) -> JsonReply,
        requires
            copy_static.requires((&self.spec_handle(),)),
            forall|handle: H| copy.requires((&handle,)),
        ensures
            exists|static_code: Result<StaticCode<H>>, reply: CreateReply<H>|
                {
                    &&& copy_static.ensures((&self.spec_handle(),), reply)
                    &&& handle_outcome(
                        static_code_handle(static_code),
                        CODE_COPY_STATIC_CODE,
                        reply.0,
                        reply.1,
                        reply.2,
                    )
                    &&& match static_code {
                        Ok(code) => exists|metadata: JsonReply|
                            copy.ensures((&code.spec_handle(),), metadata)
                                && signing_information_outcome(result, metadata),
                        Err(error) => result == Err::<SigningInformation, SecurityError>(error),
                    }
                },
    {
        let static_code = self.static_code(copy_static);
        match static_code {
            Ok(code) => code.signing_information(copy),
            Err(error) => Err(error),
        }
    }
}

} // verus!

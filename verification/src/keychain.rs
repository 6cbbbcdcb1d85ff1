//! Keychain items and access control: the access-control flag set, the
//! protection classes, the options sent with each item operation, and the
//! generic-password operations themselves, each around one bridge call.

use vstd::prelude::*;
use vstd::std_specs::ops::BitOrSpecImpl;
use vstd::string::{StringExecFns, StringSliceAdditionalSpecFns};
use vstd::utf8::encode_utf8;

use crate::bridge::{
    cstring, cstring_outcome, json_read_error_text, len_to_isize, object_outcome, required_handle,
    serde_json_string_list, status_outcome, status_result, string_list_from_json, string_texts,
};
use crate::error::{OsStatus, Result, SecurityError};
use crate::secret::SecretBytes;
use crate::json_text::{json_bool_text, json_literal, json_write_error_text, serde_json_string};

verus! {

/// Mirrors `SecAccessControlCreateFlags`.
#[derive(Debug, Clone, Copy, PartialEq, Eq, Hash, Structural)]
pub struct AccessControlFlags(u64);

impl View for AccessControlFlags {
    type V = u64;

    closed spec fn view(&self) -> u64 {
        self.0
    }
}

impl AccessControlFlags {
    /// The bits of all named flags together.
    pub open spec fn all_bits() -> u64 {
        0xc000c03b
    }

    /// The set that `from_bits` gives for `bits`: the bits themselves when
    /// they name only known flags, nothing otherwise.
    pub closed spec fn spec_from_bits(bits: u64) -> Option<Self> {
        if bits & Self::all_bits() == bits {
            Some(AccessControlFlags(bits))
        } else {
            None
        }
    }

    /// No constraint: the default.
    pub fn defaults() -> (flags: Self)
        ensures
            flags@ == 0x0,
    {
        AccessControlFlags(0x0)
    }

    /// `kSecAccessControlUserPresence`.
    pub fn user_presence() -> (flags: Self)
        ensures
            flags@ == 0x1,
    {
        AccessControlFlags(0x1)
    }

    /// `kSecAccessControlBiometryAny`.
    pub fn biometry_any() -> (flags: Self)
        ensures
            flags@ == 0x2,
    {
        AccessControlFlags(0x2)
    }

    /// `kSecAccessControlBiometryCurrentSet`.
    pub fn biometry_current_set() -> (flags: Self)
        ensures
            flags@ == 0x8,
    {
        AccessControlFlags(0x8)
    }

    /// `kSecAccessControlDevicePasscode`.
    pub fn device_passcode() -> (flags: Self)
        ensures
            flags@ == 0x10,
    {
        AccessControlFlags(0x10)
    }

    /// `kSecAccessControlCompanion`.
    pub fn companion() -> (flags: Self)
        ensures
            flags@ == 0x20,
    {
        AccessControlFlags(0x20)
    }

    /// `kSecAccessControlOr`: any one constraint suffices.
    pub fn or() -> (flags: Self)
        ensures
            flags@ == 0x4000,
    {
        AccessControlFlags(0x4000)
    }

    /// `kSecAccessControlAnd`: every constraint is needed.
    pub fn and() -> (flags: Self)
        ensures
            flags@ == 0x8000,
    {
        AccessControlFlags(0x8000)
    }

    /// `kSecAccessControlPrivateKeyUsage`.
    pub fn private_key_usage() -> (flags: Self)
        ensures
            flags@ == 0x40000000,
    {
        AccessControlFlags(0x40000000)
    }

    /// `kSecAccessControlApplicationPassword`.
    pub fn application_password() -> (flags: Self)
        ensures
            flags@ == 0x80000000,
    {
        AccessControlFlags(0x80000000)
    }

    /// The empty set.
    pub fn empty() -> (flags: Self)
        ensures
            flags@ == 0,
    {
        AccessControlFlags(0)
    }

    /// The set of every named flag.
    pub fn all() -> (flags: Self)
        ensures
            flags@ == Self::all_bits(),
    {
        AccessControlFlags(0xc000c03b)
    }

    /// The raw bits of the set.
    pub fn bits(&self) -> (bits: u64)
        ensures
            bits == self@,
    {
        self.0
    }

    /// The set with exactly `bits`, or `None` when `bits` holds a bit that
    /// names no flag.
    pub fn from_bits(bits: u64) -> (flags: Option<Self>)
        ensures
            flags == Self::spec_from_bits(bits),
            flags is Some <==> bits & Self::all_bits() == bits,
            flags matches Some(f) ==> f@ == bits,
    {
        if bits & 0xc000c03b == bits {
            Some(AccessControlFlags(bits))
        } else {
            None
        }
    }

    /// The set with the named flags among `bits`; other bits are dropped.
    pub fn from_bits_truncate(bits: u64) -> (flags: Self)
        ensures
            flags@ == bits & Self::all_bits(),
    {
        AccessControlFlags(bits & 0xc000c03b)
    }

    /// The set with exactly `bits`, named or not.
    pub fn from_bits_retain(bits: u64) -> (flags: Self)
        ensures
            flags@ == bits,
    {
        AccessControlFlags(bits)
    }

    /// Whether no bit is set.
    pub fn is_empty(&self) -> (empty: bool)
        ensures
            empty == (self@ == 0),
    {
        self.0 == 0
    }

    /// Whether every named flag is set.
    pub fn is_all(&self) -> (all: bool)
        ensures
            all == (Self::all_bits() | self@ == self@),
    {
        0xc000c03b | self.0 == self.0
    }

    /// Whether the two sets share a bit.
    pub fn intersects(&self, other: Self) -> (shared: bool)
        ensures
            shared == (self@ & other@ != 0),
    {
        self.0 & other.0 != 0
    }

    /// Whether every bit of `other` is set here.
    pub fn contains(&self, other: Self) -> (contained: bool)
        ensures
            contained == (self@ & other@ == other@),
    {
        self.0 & other.0 == other.0
    }

    /// Sets the bits of `other`.
    pub fn insert(&mut self, other: Self)
        ensures
            final(self)@ == old(self)@ | other@,
    {
        self.0 = self.0 | other.0;
    }

    /// Clears the bits of `other`.
    pub fn remove(&mut self, other: Self)
        ensures
            final(self)@ == old(self)@ & !other@,
    {
        self.0 = self.0 & !other.0;
    }

    /// Flips the bits of `other`.
    pub fn toggle(&mut self, other: Self)
        ensures
            final(self)@ == old(self)@ ^ other@,
    {
        self.0 = self.0 ^ other.0;
    }

    /// Sets the bits of `other` when `value` holds, clears them otherwise.
    pub fn set(&mut self, other: Self, value: bool)
        ensures
            final(self)@ == if value {
                old(self)@ | other@
            } else {
                old(self)@ & !other@
            },
    {
        if value {
            self.insert(other);
        } else {
            self.remove(other);
        }
    }

    /// The bits set in either set.
    pub fn union(self, other: Self) -> (flags: Self)
        ensures
            flags@ == self@ | other@,
    {
        AccessControlFlags(self.0 | other.0)
    }

    /// The bits set in both sets.
    pub fn intersection(self, other: Self) -> (flags: Self)
        ensures
            flags@ == self@ & other@,
    {
        AccessControlFlags(self.0 & other.0)
    }

    /// The bits set here and not in `other`.
    pub fn difference(self, other: Self) -> (flags: Self)
        ensures
            flags@ == self@ & !other@,
    {
        AccessControlFlags(self.0 & !other.0)
    }

    /// The bits set in exactly one of the sets.
    pub fn symmetric_difference(self, other: Self) -> (flags: Self)
        ensures
            flags@ == self@ ^ other@,
    {
        AccessControlFlags(self.0 ^ other.0)
    }

    /// The named flags that are not set here.
    pub fn complement(self) -> (flags: Self)
        ensures
            flags@ == !self@ & Self::all_bits(),
    {
        AccessControlFlags(!self.0 & 0xc000c03b)
    }
}

impl core::ops::BitOr for AccessControlFlags {
    type Output = Self;

    fn bitor(self, other: Self) -> (flags: Self) {
        AccessControlFlags(self.0 | other.0)
    }
}

impl BitOrSpecImpl for AccessControlFlags {
    open spec fn obeys_bitor_spec() -> bool {
        true
    }

    open spec fn bitor_req(self, other: Self) -> bool {
        true
    }

    closed spec fn bitor_spec(self, other: Self) -> Self {
        AccessControlFlags(self.0 | other.0)
    }
}

/// A set of named flags comes back unchanged through its bits.
pub proof fn lemma_access_control_flags_bits_round_trip(flags: AccessControlFlags)
    requires
        flags@ & AccessControlFlags::all_bits() == flags@,
    ensures
        AccessControlFlags::spec_from_bits(flags@) == Some(flags),
{
}

/// A union holds every bit of both of its operands.
pub proof fn lemma_access_control_flags_union_contains(a: AccessControlFlags, b: AccessControlFlags)
    ensures
        (a@ | b@) & a@ == a@,
        (a@ | b@) & b@ == b@,
{
    crate::bitset::lemma_u64_union_contains(a@, b@);
}

/// Removing a set leaves none of its bits.
pub proof fn lemma_access_control_flags_remove_clears(a: AccessControlFlags, b: AccessControlFlags)
    ensures
        (a@ & !b@) & b@ == 0,
{
    crate::bitset::lemma_u64_remove_clears(a@, b@);
}


/// Mirrors protection classes used by `SecAccessControlCreateWithFlags`.
#[derive(Debug, Clone, Copy, PartialEq, Eq, Hash, Structural)]
pub enum AccessControlProtection {
    /// `kSecAttrAccessibleWhenUnlocked`.
    WhenUnlocked,
    /// `kSecAttrAccessibleAfterFirstUnlock`.
    AfterFirstUnlock,
    /// `kSecAttrAccessibleWhenPasscodeSetThisDeviceOnly`.
    WhenPasscodeSetThisDeviceOnly,
    /// `kSecAttrAccessibleWhenUnlockedThisDeviceOnly`.
    WhenUnlockedThisDeviceOnly,
    /// `kSecAttrAccessibleAfterFirstUnlockThisDeviceOnly`.
    AfterFirstUnlockThisDeviceOnly,
}

/// The name under which the bridge knows a protection class.
pub open spec fn protection_bridge_name(protection: AccessControlProtection) -> Seq<char> {
    match protection {
        AccessControlProtection::WhenUnlocked => "when_unlocked"@,
        AccessControlProtection::AfterFirstUnlock => "after_first_unlock"@,
        AccessControlProtection::WhenPasscodeSetThisDeviceOnly => "when_passcode_set_this_device_only"@,
        AccessControlProtection::WhenUnlockedThisDeviceOnly => "when_unlocked_this_device_only"@,
        AccessControlProtection::AfterFirstUnlockThisDeviceOnly => "after_first_unlock_this_device_only"@,
    }
}

impl AccessControlProtection {
    /// The name under which the bridge knows this protection class.
    pub fn as_bridge_name(self) -> (name: &'static str)
        ensures
            name@ == protection_bridge_name(self),
    {
        match self {
            AccessControlProtection::WhenUnlocked => "when_unlocked",
            AccessControlProtection::AfterFirstUnlock => "after_first_unlock",
            AccessControlProtection::WhenPasscodeSetThisDeviceOnly => "when_passcode_set_this_device_only",
            AccessControlProtection::WhenUnlockedThisDeviceOnly => "when_unlocked_this_device_only",
            AccessControlProtection::AfterFirstUnlockThisDeviceOnly => "after_first_unlock_this_device_only",
        }
    }
}

impl Default for AccessControlProtection {
    /// Items are protected while the device is unlocked unless told otherwise.
    fn default() -> (protection: Self)
        ensures
            protection == AccessControlProtection::WhenUnlocked,
    {
        AccessControlProtection::WhenUnlocked
    }
}

/// Distinct protection classes have distinct bridge names.
pub proof fn lemma_protection_names_distinct(a: AccessControlProtection, b: AccessControlProtection)
    ensures
        protection_bridge_name(a) == protection_bridge_name(b) ==> a == b,
{
    reveal_strlit("when_unlocked");
    reveal_strlit("after_first_unlock");
    reveal_strlit("when_passcode_set_this_device_only");
    reveal_strlit("when_unlocked_this_device_only");
    reveal_strlit("after_first_unlock_this_device_only");
    if protection_bridge_name(a) == protection_bridge_name(b) && a != b {
        let na = protection_bridge_name(a);
        let nb = protection_bridge_name(b);
        assert(na.len() != nb.len() || na[0] != nb[0] || na[5] != nb[5] || na[14] != nb[14]);
    }
}

/// Wraps `SecAccessControlRef`.
#[derive(Debug)]
pub struct AccessControl<H> {
    handle: H,
}

impl<H> AccessControl<H> {
    /// The bridge handle this value holds.
    pub closed spec fn spec_handle(&self) -> H {
        self.handle
    }

    /// Wraps a handle that the bridge returned.
    pub fn from_handle(handle: H) -> (value: Self)
        ensures
            value.spec_handle() == handle,
    {
        AccessControl { handle }
    }

    /// The bridge handle this value holds.
    pub fn handle(&self) -> (handle: &H)
        ensures
            *handle == self.spec_handle(),
    {
        &self.handle
    }
}

/// The options sent with a keychain item operation.
#[derive(Debug)]
pub struct KeychainOptions<H> {
    accessibility: AccessControlProtection,
    access_control: Option<AccessControl<H>>,
    access_group: Option<String>,
    synchronizable: bool,
    data_protection_keychain: bool,
    authentication_context: Option<H>,
}

impl<H> Default for KeychainOptions<H> {
    /// Protection while unlocked, nothing else set.
    fn default() -> (options: Self)
        ensures
            options.spec_accessibility() == AccessControlProtection::WhenUnlocked,
            options.spec_access_control() is None,
            options.spec_access_group() is None,
            !options.spec_synchronizable(),
            !options.spec_data_protection_keychain(),
            options.spec_authentication_context() is None,
    {
        KeychainOptions {
            accessibility: AccessControlProtection::WhenUnlocked,
            access_control: None,
            access_group: None,
            synchronizable: false,
            data_protection_keychain: false,
            authentication_context: None,
        }
    }
}

/// The text of the error for an authentication context the bridge did not retain.
pub open spec fn authentication_context_error_text() -> Seq<char> {
    "authentication context must be an LAContext"@
}

impl<H> KeychainOptions<H> {
    /// The protection class of the item.
    pub closed spec fn spec_accessibility(&self) -> AccessControlProtection {
        self.accessibility
    }

    /// The handle of the access-control object sent along, if any.
    pub closed spec fn spec_access_control(&self) -> Option<H> {
        match self.access_control {
            Some(control) => Some(control.handle),
            None => None,
        }
    }

    /// The access group of the item, if any.
    pub closed spec fn spec_access_group(&self) -> Option<Seq<char>> {
        match self.access_group {
            Some(group) => Some(group@),
            None => None,
        }
    }

    /// Whether the item synchronises through iCloud Keychain.
    pub closed spec fn spec_synchronizable(&self) -> bool {
        self.synchronizable
    }

    /// Whether the item lives in the data-protection keychain.
    pub closed spec fn spec_data_protection_keychain(&self) -> bool {
        self.data_protection_keychain
    }

    /// The `LAContext` handle sent along, if any.
    pub closed spec fn spec_authentication_context(&self) -> Option<H> {
        self.authentication_context
    }

    /// Sets the protection class.
    pub fn accessibility(self, accessibility: AccessControlProtection) -> (options: Self)
        ensures
            options.spec_accessibility() == accessibility,
            options.spec_access_control() == self.spec_access_control(),
            options.spec_access_group() == self.spec_access_group(),
            options.spec_synchronizable() == self.spec_synchronizable(),
            options.spec_data_protection_keychain() == self.spec_data_protection_keychain(),
            options.spec_authentication_context() == self.spec_authentication_context(),
    {
        KeychainOptions { accessibility, ..self }
    }

    /// Sends an access-control object along.
    pub fn access_control(self, access_control: AccessControl<H>) -> (options: Self)
        ensures
            options.spec_accessibility() == self.spec_accessibility(),
            options.spec_access_control() == Some(access_control.spec_handle()),
            options.spec_access_group() == self.spec_access_group(),
            options.spec_synchronizable() == self.spec_synchronizable(),
            options.spec_data_protection_keychain() == self.spec_data_protection_keychain(),
            options.spec_authentication_context() == self.spec_authentication_context(),
    {
        KeychainOptions { access_control: Some(access_control), ..self }
    }

    /// Sets the access group.
    pub fn access_group(self, access_group: &str) -> (options: Self)
        ensures
            options.spec_accessibility() == self.spec_accessibility(),
            options.spec_access_control() == self.spec_access_control(),
            options.spec_access_group() == Some(access_group@),
            options.spec_synchronizable() == self.spec_synchronizable(),
            options.spec_data_protection_keychain() == self.spec_data_protection_keychain(),
            options.spec_authentication_context() == self.spec_authentication_context(),
    {
        KeychainOptions { access_group: Some(access_group.to_string()), ..self }
    }

    /// Sets whether the item synchronises.
    pub fn synchronizable(self, synchronizable: bool) -> (options: Self)
        ensures
            options.spec_accessibility() == self.spec_accessibility(),
            options.spec_access_control() == self.spec_access_control(),
            options.spec_access_group() == self.spec_access_group(),
            options.spec_synchronizable() == synchronizable,
            options.spec_data_protection_keychain() == self.spec_data_protection_keychain(),
            options.spec_authentication_context() == self.spec_authentication_context(),
    {
        KeychainOptions { synchronizable, ..self }
    }

    /// Sets whether the item lives in the data-protection keychain.
    pub fn data_protection_keychain(self, data_protection_keychain: bool) -> (options: Self)
        ensures
            options.spec_accessibility() == self.spec_accessibility(),
            options.spec_access_control() == self.spec_access_control(),
            options.spec_access_group() == self.spec_access_group(),
            options.spec_synchronizable() == self.spec_synchronizable(),
            options.spec_data_protection_keychain() == data_protection_keychain,
            options.spec_authentication_context() == self.spec_authentication_context(),
    {
        KeychainOptions { data_protection_keychain, ..self }
    }

    /// Sends the `LAContext` that the bridge retained along; `None`, what the
    /// bridge gives for anything that is not an `LAContext`, is refused.
    pub fn authentication_context(self, context: Option<H>) -> (result: Result<Self>)
        ensures
            match context {
                Some(handle) => result matches Ok(options) && {
                    &&& options.spec_accessibility() == self.spec_accessibility()
                    &&& options.spec_access_control() == self.spec_access_control()
                    &&& options.spec_access_group() == self.spec_access_group()
                    &&& options.spec_synchronizable() == self.spec_synchronizable()
                    &&& options.spec_data_protection_keychain()
                        == self.spec_data_protection_keychain()
                    &&& options.spec_authentication_context() == Some(handle)
                },
                None => result matches Err(SecurityError::InvalidArgument(message)) && message@
                    == authentication_context_error_text(),
            },
    {
        match context {
            Some(handle) => Ok(KeychainOptions { authentication_context: Some(handle), ..self }),
            None => Err(
                SecurityError::InvalidArgument(
                    "authentication context must be an LAContext".to_string(),
                ),
            ),
        }
    }

    /// The JSON document of these options that the bridge reads.
    pub fn bridge_json(&self) -> (result: Result<String>)
        ensures
            match options_json_text(
                self.spec_access_group(),
                protection_bridge_name(self.spec_accessibility()),
                self.spec_data_protection_keychain(),
                self.spec_synchronizable(),
            ) {
                Ok(text) => result matches Ok(json) && json@ == text,
                Err(message) => result matches Err(SecurityError::Serialization(text)) && text@
                    == json_write_error_text(message),
            },
    {
        let group = match &self.access_group {
            Some(group) => Some(json_literal(group.as_str())?),
            None => None,
        };
        let accessibility = json_literal(self.accessibility.as_bridge_name())?;
        let members = options_members(
            group,
            accessibility,
            self.data_protection_keychain,
            self.synchronizable,
        );
        let mut json = "{".to_string();
        json.append(members.as_str());
        Ok(json)
    }

    /// The access-control object sent along, if any.
    pub fn access_control_ptr(&self) -> (handle: Option<&H>)
        ensures
            match handle {
                Some(h) => self.spec_access_control() == Some(*h),
                None => self.spec_access_control() is None,
            },
    {
        match &self.access_control {
            Some(control) => Some(&control.handle),
            None => None,
        }
    }

    /// The `LAContext` sent along, if any.
    pub fn authentication_context_ptr(&self) -> (handle: Option<&H>)
        ensures
            match handle {
                Some(h) => self.spec_authentication_context() == Some(*h),
                None => self.spec_authentication_context() is None,
            },
    {
        match &self.authentication_context {
            Some(context) => Some(context),
            None => None,
        }
    }
}

/// The members of the options document, written out.
fn options_members(
    group: Option<String>,
    accessibility: String,
    data_protection_keychain: bool,
    synchronizable: bool,
) -> (members: String)
    ensures
        members@ == options_json_members(
            match group {
                Some(literal) => Some(literal@),
                None => None,
            },
            accessibility@,
            data_protection_keychain,
            synchronizable,
        ),
{
    let mut members = String::new();
    match &group {
        Some(literal) => {
            members.append("\"access_group\":");
            members.append(literal.as_str());
            members.append(",");
        },
        None => {},
    }
    let ghost group_text = members@;
    members.append("\"accessibility\":");
    members.append(accessibility.as_str());
    members.append(",\"data_protection_keychain\":");
    let ghost before_first = members@;
    members.append(if data_protection_keychain { "true" } else { "false" });
    assert(members@ == before_first + json_bool_text(data_protection_keychain));
    members.append(",\"synchronizable\":");
    let ghost before_second = members@;
    members.append(if synchronizable { "true" } else { "false" });
    assert(members@ == before_second + json_bool_text(synchronizable));
    members.append("}");
    members
}

/// The members of the options document after its opening brace: the access
/// group when there is one, then the protection class and the two switches,
/// in the key order `serde_json` writes objects in.
pub open spec fn options_json_members(
    access_group: Option<Seq<char>>,
    accessibility: Seq<char>,
    data_protection_keychain: bool,
    synchronizable: bool,
) -> Seq<char> {
    let group = match access_group {
        Some(literal) => "\"access_group\":"@ + literal + ","@,
        None => Seq::empty(),
    };
    group + "\"accessibility\":"@ + accessibility + ",\"data_protection_keychain\":"@
        + json_bool_text(data_protection_keychain) + ",\"synchronizable\":"@ + json_bool_text(
        synchronizable,
    ) + "}"@
}

/// The options document for the given settings, or the error of the first
/// string literal that could not be written.
pub open spec fn options_json_text(
    access_group: Option<Seq<char>>,
    accessibility: Seq<char>,
    data_protection_keychain: bool,
    synchronizable: bool,
) -> std::result::Result<Seq<char>, Seq<char>> {
    let group = match access_group {
        Some(text) => match serde_json_string(text) {
            Ok(literal) => Ok(Some(literal)),
            Err(message) => Err(message),
        },
        None => Ok(None),
    };
    match group {
        Err(message) => Err(message),
        Ok(group_literal) => match serde_json_string(accessibility) {
            Err(message) => Err(message),
            Ok(literal) => Ok(
                "{"@ + options_json_members(
                    group_literal,
                    literal,
                    data_protection_keychain,
                    synchronizable,
                ),
            ),
        },
    }
}

/// A generic-password item: the account and the service it is stored under.
#[derive(Debug, Clone, PartialEq, Eq, Hash)]
pub struct KeychainEntry {
    account: String,
    service: String,
}

impl KeychainEntry {
    /// The account of the item.
    pub closed spec fn spec_account(&self) -> Seq<char> {
        self.account@
    }

    /// The service of the item.
    pub closed spec fn spec_service(&self) -> Seq<char> {
        self.service@
    }

    /// The item stored under `account` and `service`.
    pub fn new(account: &str, service: &str) -> (entry: Self)
        ensures
            entry.spec_account() == account@,
            entry.spec_service() == service@,
    {
        KeychainEntry { account: account.to_string(), service: service.to_string() }
    }

    /// The account of the item.
    pub fn account(&self) -> (account: &str)
        ensures
            account@ == self.spec_account(),
    {
        self.account.as_str()
    }

    /// The service of the item.
    pub fn service(&self) -> (service: &str)
        ensures
            service@ == self.spec_service(),
    {
        self.service.as_str()
    }

    /// Stores `secret` as this item's password with the default options.
    pub fn set<'a, F>(&self, secret: &'a [u8], set_item: F) -> (result: Result<()>)
        where
            F: FnOnce(KeychainCall<'a, ()>) -> StatusReply,
        requires
            forall|call: KeychainCall<'a, ()>| set_item.requires((call,)),
        ensures
            item_outcome(
                result,
                self.spec_account(),
                self.spec_service(),
                Some(secret@),
                default_options_text(),
                None,
                None,
                status_done(result, SET_ITEM, set_item),
            ),
    {
        Keychain::set(self.account.as_str(), self.service.as_str(), secret, set_item)
    }

    /// This item's password, read with the default options.
    pub fn get<F>(&self, copy_item: F) -> (result: Result<SecretBytes>)
        where
            F: FnOnce(KeychainCall<'static, ()>) -> SecretReply,
        requires
            forall|call: KeychainCall<'static, ()>| copy_item.requires((call,)),
        ensures
            item_outcome(
                result,
                self.spec_account(),
                self.spec_service(),
                None,
                default_options_text(),
                None,
                None,
                secret_done(result, copy_item),
            ),
    {
        Keychain::get(self.account.as_str(), self.service.as_str(), copy_item)
    }

    /// Deletes this item with the default options.
    pub fn delete<F>(&self, delete_item: F) -> (result: Result<()>)
        where
            F: FnOnce(KeychainCall<'static, ()>) -> StatusReply,
        requires
            forall|call: KeychainCall<'static, ()>| delete_item.requires((call,)),
        ensures
            item_outcome(
                result,
                self.spec_account(),
                self.spec_service(),
                None,
                default_options_text(),
                None,
                None,
                status_done(result, DELETE_ITEM, delete_item),
            ),
    {
        Keychain::delete(self.account.as_str(), self.service.as_str(), delete_item)
    }
}

/// What a generic-password operation hands to its bridge call: the account
/// and service as C strings, the secret to store (none where no secret is
/// sent) and its length, the options document as a C string, and the
/// access-control object and `LAContext` to send along.
#[derive(Debug)]
pub struct KeychainCall<'a, H> {
    /// The account, NUL-terminated.
    pub account: Vec<u8>,
    /// The service, NUL-terminated.
    pub service: Vec<u8>,
    /// The secret to store, if the operation stores one.
    pub secret: Option<&'a [u8]>,
    /// The length of the secret, zero where none is sent.
    pub secret_length: isize,
    /// The options document, NUL-terminated.
    pub options_json: Vec<u8>,
    /// The access-control object to store the item with, if any.
    pub access_control: Option<&'a H>,
    /// The `LAContext` to send along, if any.
    pub authentication_context: Option<&'a H>,
}

/// What listing the accounts of a service hands to its bridge call: the
/// service and the options document, as C strings, and the `LAContext` to
/// send along.
#[derive(Debug)]
pub struct AccountListCall<'a, H> {
    /// The service, NUL-terminated.
    pub service: Vec<u8>,
    /// The options document, NUL-terminated.
    pub options_json: Vec<u8>,
    /// The `LAContext` to send along, if any.
    pub authentication_context: Option<&'a H>,
}

/// What a bridge call that only reports a status hands back: the status and
/// the text of its error object.
pub type StatusReply = (OsStatus, Result<Option<String>>);

/// What the bridge call that copies a password hands back: the bytes read
/// from the returned data object (or the failure to read them) when there is
/// one, the status and the text of the error object.
pub type SecretReply = (Option<Result<Vec<u8>>>, OsStatus, Result<Option<String>>);

/// What the bridge call that lists accounts hands back: the JSON text read
/// from the returned string object (or the failure to read it) when there is
/// one, the status and the text of the error object.
pub type AccountsReply = (Option<Result<String>>, OsStatus, Result<Option<String>>);

/// The bridge operation that stores a generic password.
pub const SET_ITEM: &'static str = "security_keychain_set_item";

/// The bridge operation that copies a generic password.
pub const COPY_ITEM: &'static str = "security_keychain_copy_item";

/// The bridge operation that deletes a generic password.
pub const DELETE_ITEM: &'static str = "security_keychain_delete_item";

/// The bridge operation that lists the accounts of a service.
pub const LIST_ACCOUNTS: &'static str = "security_keychain_list_accounts";

/// The options document of `options`.
pub open spec fn options_text<H>(options: KeychainOptions<H>) -> std::result::Result<Seq<char>, Seq<char>> {
    options_json_text(
        options.spec_access_group(),
        protection_bridge_name(options.spec_accessibility()),
        options.spec_data_protection_keychain(),
        options.spec_synchronizable(),
    )
}

/// The options document that the default options give.
pub open spec fn default_options_text() -> std::result::Result<Seq<char>, Seq<char>> {
    options_json_text(None, "when_unlocked"@, false, false)
}

/// `text` as a C string: its UTF-8 bytes and a NUL terminator.
pub open spec fn c_text(text: Seq<char>) -> Seq<u8> {
    encode_utf8(text).push(0u8)
}

/// The handle that `given` refers to, if any.
pub open spec fn held_handle<H>(given: Option<&H>) -> Option<H> {
    match given {
        Some(h) => Some(*h),
        None => None,
    }
}

/// The bytes that `given` refers to, if any.
pub open spec fn held_bytes(given: Option<&[u8]>) -> Option<Seq<u8>> {
    match given {
        Some(bytes) => Some(bytes@),
        None => None,
    }
}

/// The length of the secret that is sent: zero where none is.
pub open spec fn secret_length_of(secret: Option<Seq<u8>>) -> nat {
    match secret {
        Some(bytes) => bytes.len(),
        None => 0,
    }
}

/// `result` is what a generic-password operation on `account` and `service`
/// with the secret `secret` (if one is sent), the options document
/// `options_text`, the access-control object `access_control` and the
/// `LAContext` `authentication_context` comes to: the error of the first
/// argument the bridge cannot take, in the order account, service, options,
/// secret; otherwise what `done` says of the bridge call handed exactly
/// these arguments.
pub open spec fn item_outcome<'a, T, H>(
    result: Result<T>,
    account: Seq<char>,
    service: Seq<char>,
    secret: Option<Seq<u8>>,
    options_text: std::result::Result<Seq<char>, Seq<char>>,
    access_control: Option<H>,
    authentication_context: Option<H>,
    done: spec_fn(KeychainCall<'a, H>) -> bool,
) -> bool {
    if encode_utf8(account).contains(0u8) {
        result matches Err(error) && cstring_outcome(encode_utf8(account), Err(error))
    } else if encode_utf8(service).contains(0u8) {
        result matches Err(error) && cstring_outcome(encode_utf8(service), Err(error))
    } else {
        match options_text {
            Err(message) => result matches Err(SecurityError::Serialization(text)) && text@
                == json_write_error_text(message),
            Ok(options) => if encode_utf8(options).contains(0u8) {
                result matches Err(error) && cstring_outcome(encode_utf8(options), Err(error))
            } else if secret_length_of(secret) > isize::MAX {
                result matches Err(SecurityError::InvalidArgument(message)) && message@
                    == "input exceeds bridge size limits"@
            } else {
                exists|arguments: KeychainCall<'a, H>|
                    {
                        &&& arguments.account@ == c_text(account)
                        &&& arguments.service@ == c_text(service)
                        &&& held_bytes(arguments.secret) == secret
                        &&& arguments.secret_length == secret_length_of(secret)
                        &&& arguments.options_json@ == c_text(options)
                        &&& held_handle(arguments.access_control) == access_control
                        &&& held_handle(arguments.authentication_context) == authentication_context
                        &&& #[trigger] done(arguments)
                    }
            },
        }
    }
}

/// `result` is what listing the accounts of `service` with the options
/// document `options_text` and the `LAContext` `authentication_context`
/// comes to: the error of the first argument the bridge cannot take;
/// otherwise what `done` says of the bridge call handed exactly these
/// arguments.
pub open spec fn list_outcome<'a, T, H>(
    result: Result<T>,
    service: Seq<char>,
    options_text: std::result::Result<Seq<char>, Seq<char>>,
    authentication_context: Option<H>,
    done: spec_fn(AccountListCall<'a, H>) -> bool,
) -> bool {
    if encode_utf8(service).contains(0u8) {
        result matches Err(error) && cstring_outcome(encode_utf8(service), Err(error))
    } else {
        match options_text {
            Err(message) => result matches Err(SecurityError::Serialization(text)) && text@
                == json_write_error_text(message),
            Ok(options) => if encode_utf8(options).contains(0u8) {
                result matches Err(error) && cstring_outcome(encode_utf8(options), Err(error))
            } else {
                exists|arguments: AccountListCall<'a, H>|
                    {
                        &&& arguments.service@ == c_text(service)
                        &&& arguments.options_json@ == c_text(options)
                        &&& held_handle(arguments.authentication_context) == authentication_context
                        &&& #[trigger] done(arguments)
                    }
            },
        }
    }
}

/// The call, handed `arguments`, replied with a status whose outcome is `result`.
pub open spec fn status_done<'a, H, F: FnOnce(KeychainCall<'a, H>) -> StatusReply>(
    result: Result<()>,
    operation: &'static str,
    call: F,
) -> spec_fn(KeychainCall<'a, H>) -> bool {
    |arguments: KeychainCall<'a, H>|
        exists|reply: StatusReply|
            call.ensures((arguments,), reply) && status_outcome(result, operation, reply.0, reply.1)
}

/// The secret the copy call, handed `arguments`, replied with.
pub open spec fn secret_done<'a, H, F: FnOnce(KeychainCall<'a, H>) -> SecretReply>(
    result: Result<SecretBytes>,
    call: F,
) -> spec_fn(KeychainCall<'a, H>) -> bool {
    |arguments: KeychainCall<'a, H>|
        exists|reply: SecretReply|
            call.ensures((arguments,), reply) && object_outcome(
                result,
                COPY_ITEM,
                reply.0,
                reply.1,
                reply.2,
                |secret: SecretBytes, bytes: Vec<u8>| secret.spec_bytes() == bytes@,
            )
}

/// The accounts the list call, handed `arguments`, replied with: the JSON
/// text it read, as a list of strings.
pub open spec fn accounts_done<'a, H, F: FnOnce(AccountListCall<'a, H>) -> AccountsReply>(
    result: Result<Vec<String>>,
    call: F,
) -> spec_fn(AccountListCall<'a, H>) -> bool {
    |arguments: AccountListCall<'a, H>|
        exists|reply: AccountsReply|
            call.ensures((arguments,), reply) && match reply.0 {
                Some(Ok(json)) => match serde_json_string_list(json@) {
                    Ok(items) => result matches Ok(accounts) && string_texts(accounts@) == items,
                    Err(message) => result matches Err(SecurityError::Serialization(text))
                        && text@ == json_read_error_text(message),
                },
                _ => object_outcome(
                    result,
                    LIST_ACCOUNTS,
                    reply.0,
                    reply.1,
                    reply.2,
                    |accounts: Vec<String>, json: String| false,
                ),
            }
}

/// Wraps generic-password operations built on `SecItem` APIs; each takes the
/// bridge call that performs it and hands it the checked arguments.
pub struct Keychain;

impl Keychain {
    /// The item stored under `account` and `service`.
    pub fn entry(account: &str, service: &str) -> (entry: KeychainEntry)
        ensures
            entry.spec_account() == account@,
            entry.spec_service() == service@,
    {
        KeychainEntry::new(account, service)
    }

    /// Stores `secret` under `account` and `service` with the default options.
    pub fn set<'a, F>(account: &str, service: &str, secret: &'a [u8], set_item: F) -> (result:
        Result<()>)
        where
            F: FnOnce(KeychainCall<'a, ()>) -> StatusReply,
        requires
            forall|call: KeychainCall<'a, ()>| set_item.requires((call,)),
        ensures
            item_outcome(
                result,
                account@,
                service@,
                Some(secret@),
                default_options_text(),
                None,
                None,
                status_done(result, SET_ITEM, set_item),
            ),
    {
        let options: KeychainOptions<()> = KeychainOptions::default();
        let arguments = match item_arguments(account, service, Some(secret), &options, None, None) {
            Ok(arguments) => arguments,
            Err(error) => return Err(error),
        };
        Self::send_status(SET_ITEM, arguments, set_item)
    }

    /// The password under `account` and `service`, read with the default options.
    pub fn get<F>(account: &str, service: &str, copy_item: F) -> (result: Result<SecretBytes>)
        where
            F: FnOnce(KeychainCall<'static, ()>) -> SecretReply,
        requires
            forall|call: KeychainCall<'static, ()>| copy_item.requires((call,)),
        ensures
            item_outcome(
                result,
                account@,
                service@,
                None,
                default_options_text(),
                None,
                None,
                secret_done(result, copy_item),
            ),
    {
        let options: KeychainOptions<()> = KeychainOptions::default();
        let arguments = match item_arguments(account, service, None, &options, None, None) {
            Ok(arguments) => arguments,
            Err(error) => return Err(error),
        };
        Self::send_copy(arguments, copy_item)
    }

    /// Deletes the item under `account` and `service` with the default options.
    pub fn delete<F>(account: &str, service: &str, delete_item: F) -> (result: Result<()>)
        where
            F: FnOnce(KeychainCall<'static, ()>) -> StatusReply,
        requires
            forall|call: KeychainCall<'static, ()>| delete_item.requires((call,)),
        ensures
            item_outcome(
                result,
                account@,
                service@,
                None,
                default_options_text(),
                None,
                None,
                status_done(result, DELETE_ITEM, delete_item),
            ),
    {
        let options: KeychainOptions<()> = KeychainOptions::default();
        let arguments = match item_arguments(account, service, None, &options, None, None) {
            Ok(arguments) => arguments,
            Err(error) => return Err(error),
        };
        Self::send_status(DELETE_ITEM, arguments, delete_item)
    }

    /// The accounts that hold an item of `service`, with the default options.
    pub fn list_accounts<F>(service: &str, list: F) -> (result: Result<Vec<String>>)
        where
            F: FnOnce(AccountListCall<'static, ()>) -> AccountsReply,
        requires
            forall|call: AccountListCall<'static, ()>| list.requires((call,)),
        ensures
            list_outcome(result, service@, default_options_text(), None, accounts_done(result, list)),
    {
        let options: KeychainOptions<()> = KeychainOptions::default();
        Self::list_with(service, &options, None, list)
    }

    /// Stores `secret` under `account` and `service` with `options`.
    pub fn set_with_options<'a, H, F>(
        account: &str,
        service: &str,
        secret: &'a [u8],
        options: &'a KeychainOptions<H>,
        set_item: F,
    ) -> (result: Result<()>)
        where
            F: FnOnce(KeychainCall<'a, H>) -> StatusReply,
        requires
            forall|call: KeychainCall<'a, H>| set_item.requires((call,)),
        ensures
            item_outcome(
                result,
                account@,
                service@,
                Some(secret@),
                options_text(*options),
                options.spec_access_control(),
                options.spec_authentication_context(),
                status_done(result, SET_ITEM, set_item),
            ),
    {
        let arguments = match item_arguments(
            account,
            service,
            Some(secret),
            options,
            options.access_control_ptr(),
            options.authentication_context_ptr(),
        ) {
            Ok(arguments) => arguments,
            Err(error) => return Err(error),
        };
        Self::send_status(SET_ITEM, arguments, set_item)
    }

    /// The password under `account` and `service`, read with `options`.
    pub fn get_with_options<'a, H, F>(
        account: &str,
        service: &str,
        options: &'a KeychainOptions<H>,
        copy_item: F,
    ) -> (result: Result<SecretBytes>)
        where
            F: FnOnce(KeychainCall<'a, H>) -> SecretReply,
        requires
            forall|call: KeychainCall<'a, H>| copy_item.requires((call,)),
        ensures
            item_outcome(
                result,
                account@,
                service@,
                None,
                options_text(*options),
                None,
                options.spec_authentication_context(),
                secret_done(result, copy_item),
            ),
    {
        let arguments = match item_arguments(
            account,
            service,
            None,
            options,
            None,
            options.authentication_context_ptr(),
        ) {
            Ok(arguments) => arguments,
            Err(error) => return Err(error),
        };
        Self::send_copy(arguments, copy_item)
    }

    /// Deletes the item under `account` and `service` with `options`.
    pub fn delete_with_options<'a, H, F>(
        account: &str,
        service: &str,
        options: &'a KeychainOptions<H>,
        delete_item: F,
    ) -> (result: Result<()>)
        where
            F: FnOnce(KeychainCall<'a, H>) -> StatusReply,
        requires
            forall|call: KeychainCall<'a, H>| delete_item.requires((call,)),
        ensures
            item_outcome(
                result,
                account@,
                service@,
                None,
                options_text(*options),
                None,
                options.spec_authentication_context(),
                status_done(result, DELETE_ITEM, delete_item),
            ),
    {
        let arguments = match item_arguments(
            account,
            service,
            None,
            options,
            None,
            options.authentication_context_ptr(),
        ) {
            Ok(arguments) => arguments,
            Err(error) => return Err(error),
        };
        Self::send_status(DELETE_ITEM, arguments, delete_item)
    }

    /// The accounts that hold an item of `service`, with `options`.
    pub fn list_accounts_with_options<'a, H, F>(
        service: &str,
        options: &'a KeychainOptions<H>,
        list: F,
    ) -> (result: Result<Vec<String>>)
        where
            F: FnOnce(AccountListCall<'a, H>) -> AccountsReply,
        requires
            forall|call: AccountListCall<'a, H>| list.requires((call,)),
        ensures
            list_outcome(
                result,
                service@,
                options_text(*options),
                options.spec_authentication_context(),
                accounts_done(result, list),
            ),
    {
        let context = options.authentication_context_ptr();
        assert(held_handle(context) == options.spec_authentication_context());
        Self::list_with(service, options, context, list)
    }

    /// Hands `arguments` to the status-reporting bridge call `call` and
    /// returns what its status comes to.
    fn send_status<'a, H, F>(operation: &'static str, arguments: KeychainCall<'a, H>, call: F) -> (result: Result<()>)
        where
            F: FnOnce(KeychainCall<'a, H>) -> StatusReply,
        requires
            call.requires((arguments,)),
        ensures
            status_done(result, operation, call)(arguments),
    {
        let ghost handed = arguments;
        let reply = call(arguments);
        let result = status_result(operation, reply.0, reply.1);
        assert(status_done(result, operation, call)(handed));
        result
    }

    /// Hands `arguments` to the copy call `copy_item` and returns the secret
    /// it replied with.
    fn send_copy<'a, H, F>(arguments: KeychainCall<'a, H>, copy_item: F) -> (result: Result<SecretBytes>)
        where
            F: FnOnce(KeychainCall<'a, H>) -> SecretReply,
        requires
            copy_item.requires((arguments,)),
        ensures
            secret_done(result, copy_item)(arguments),
    {
        let ghost handed = arguments;
        let reply = copy_item(arguments);
        let (object, status, error_text) = reply;
        let result = match required_handle(COPY_ITEM, object, status, error_text) {
            Ok(Ok(bytes)) => Ok(SecretBytes::new(bytes)),
            Ok(Err(read_error)) => Err(read_error),
            Err(error) => Err(error),
        };
        assert(secret_done(result, copy_item)(handed));
        result
    }

    /// Lists the accounts of `service` with the options document of
    /// `options` and the `LAContext` `authentication_context`.
    fn list_with<'a, H, G, F>(
        service: &str,
        options: &KeychainOptions<G>,
        authentication_context: Option<&'a H>,
        list: F,
    ) -> (result: Result<Vec<String>>)
        where
            F: FnOnce(AccountListCall<'a, H>) -> AccountsReply,
        requires
            forall|call: AccountListCall<'a, H>| list.requires((call,)),
        ensures
            list_outcome(
                result,
                service@,
                options_text(*options),
                held_handle(authentication_context),
                accounts_done(result, list),
            ),
    {
        let service_c = match cstring(service) {
            Ok(bytes) => bytes,
            Err(error) => return Err(error),
        };
        let json = match options.bridge_json() {
            Ok(json) => json,
            Err(error) => return Err(error),
        };
        let options_c = match cstring(json.as_str()) {
            Ok(bytes) => bytes,
            Err(error) => return Err(error),
        };
        let arguments = AccountListCall {
            service: service_c,
            options_json: options_c,
            authentication_context,
        };
        let ghost handed = arguments;
        let reply = list(arguments);
        let (object, status, error_text) = reply;
        let result = match required_handle(LIST_ACCOUNTS, object, status, error_text) {
            Ok(Ok(json)) => string_list_from_json(json.as_str()),
            Ok(Err(read_error)) => Err(read_error),
            Err(error) => Err(error),
        };
        assert(accounts_done(result, list)(handed));
        result
    }
}

/// The checked arguments of a generic-password operation, or the error of
/// the first one the bridge cannot take.
pub fn item_arguments<'a, H, G>(
    account: &str,
    service: &str,
    secret: Option<&'a [u8]>,
    options: &KeychainOptions<G>,
    access_control: Option<&'a H>,
    authentication_context: Option<&'a H>,
) -> (result: Result<KeychainCall<'a, H>>)
    ensures
        item_outcome(
            result,
            account@,
            service@,
            held_bytes(secret),
            options_text(*options),
            held_handle(access_control),
            held_handle(authentication_context),
            |arguments: KeychainCall<'a, H>| result == Ok::<KeychainCall<'a, H>, SecurityError>(
                arguments,
            ),
        ),
{
    let account_c = cstring(account)?;
    let service_c = cstring(service)?;
    let json = options.bridge_json()?;
    let options_c = cstring(json.as_str())?;
    let secret_length = match secret {
        Some(bytes) => len_to_isize(bytes.len())?,
        None => 0,
    };
    let arguments = KeychainCall {
        account: account_c,
        service: service_c,
        secret,
        secret_length,
        options_json: options_c,
        access_control,
        authentication_context,
    };
    assert((|call: KeychainCall<'a, H>| Ok::<KeychainCall<'a, H>, SecurityError>(arguments) == Ok::<
        KeychainCall<'a, H>,
        SecurityError,
    >(call))(arguments));
    Ok(arguments)
}

/// An entry's operations are the keychain's operations on its account and
/// service: for every result and every bridge call, what `KeychainEntry::set`,
/// `get` and `delete` promise is what `Keychain::set`, `get` and `delete`
/// promise for the same account, service and secret.
pub proof fn lemma_entry_operations_are_keychain_operations<
    'a,
    S: FnOnce(KeychainCall<'a, ()>) -> StatusReply,
    C: FnOnce(KeychainCall<'static, ()>) -> SecretReply,
    D: FnOnce(KeychainCall<'static, ()>) -> StatusReply,
>(
    entry: KeychainEntry,
    account: &str,
    service: &str,
    secret: &'a [u8],
    stored: Result<()>,
    read: Result<SecretBytes>,
    deleted: Result<()>,
    set_item: S,
    copy_item: C,
    delete_item: D,
)
    requires
        entry.spec_account() == account@,
        entry.spec_service() == service@,
    ensures
        item_outcome(
            stored,
            entry.spec_account(),
            entry.spec_service(),
            Some(secret@),
            default_options_text(),
            None,
            None,
            status_done(stored, SET_ITEM, set_item),
        ) == item_outcome(
            stored,
            account@,
            service@,
            Some(secret@),
            default_options_text(),
            None,
            None,
            status_done(stored, SET_ITEM, set_item),
        ),
        item_outcome(
            read,
            entry.spec_account(),
            entry.spec_service(),
            None,
            default_options_text(),
            None,
            None,
            secret_done(read, copy_item),
        ) == item_outcome(
            read,
            account@,
            service@,
            None,
            default_options_text(),
            None,
            None,
            secret_done(read, copy_item),
        ),
        item_outcome(
            deleted,
            entry.spec_account(),
            entry.spec_service(),
            None,
            default_options_text(),
            None,
            None,
            status_done(deleted, DELETE_ITEM, delete_item),
        ) == item_outcome(
            deleted,
            account@,
            service@,
            None,
            default_options_text(),
            None,
            None,
            status_done(deleted, DELETE_ITEM, delete_item),
        ),
{
}

/// The default options are the options that `KeychainOptions::default`
/// builds: an item protected while unlocked, outside the data-protection
/// keychain, not synchronizable, with no access group, access-control object
/// or `LAContext`. So, for every result and every bridge call, what
/// `set_with_options`, `get_with_options`, `delete_with_options` and
/// `list_accounts_with_options` promise with such options is what `set`,
/// `get`, `delete` and `list_accounts` promise.
pub proof fn lemma_default_operations_use_default_options<
    'a,
    S: FnOnce(KeychainCall<'a, ()>) -> StatusReply,
    C: FnOnce(KeychainCall<'a, ()>) -> SecretReply,
    D: FnOnce(KeychainCall<'a, ()>) -> StatusReply,
    L: FnOnce(AccountListCall<'a, ()>) -> AccountsReply,
>(
    options: KeychainOptions<()>,
    account: Seq<char>,
    service: Seq<char>,
    secret: Seq<u8>,
    stored: Result<()>,
    read: Result<SecretBytes>,
    deleted: Result<()>,
    listed: Result<Vec<String>>,
    set_item: S,
    copy_item: C,
    delete_item: D,
    list: L,
)
    requires
        options.spec_accessibility() == AccessControlProtection::WhenUnlocked,
        options.spec_access_control() is None,
        options.spec_access_group() is None,
        !options.spec_synchronizable(),
        !options.spec_data_protection_keychain(),
        options.spec_authentication_context() is None,
    ensures
        options_text(options) == default_options_text(),
        item_outcome(
            stored,
            account,
            service,
            Some(secret),
            options_text(options),
            options.spec_access_control(),
            options.spec_authentication_context(),
            status_done(stored, SET_ITEM, set_item),
        ) == item_outcome(
            stored,
            account,
            service,
            Some(secret),
            default_options_text(),
            None,
            None,
            status_done(stored, SET_ITEM, set_item),
        ),
        item_outcome(
            read,
            account,
            service,
            None,
            options_text(options),
            None,
            options.spec_authentication_context(),
            secret_done(read, copy_item),
        ) == item_outcome(
            read,
            account,
            service,
            None,
            default_options_text(),
            None,
            None,
            secret_done(read, copy_item),
        ),
        item_outcome(
            deleted,
            account,
            service,
            None,
            options_text(options),
            None,
            options.spec_authentication_context(),
            status_done(deleted, DELETE_ITEM, delete_item),
        ) == item_outcome(
            deleted,
            account,
            service,
            None,
            default_options_text(),
            None,
            None,
            status_done(deleted, DELETE_ITEM, delete_item),
        ),
        list_outcome(
            listed,
            service,
            options_text(options),
            options.spec_authentication_context(),
            accounts_done(listed, list),
        ) == list_outcome(
            listed,
            service,
            default_options_text(),
            None,
            accounts_done(listed, list),
        ),
{
}

/// Each protection class is sent under its own name.
pub proof fn lemma_protection_names(protection: AccessControlProtection)
    ensures
        protection == AccessControlProtection::WhenUnlocked ==> protection_bridge_name(protection) == "when_unlocked"@,
        protection == AccessControlProtection::AfterFirstUnlock ==> protection_bridge_name(protection) == "after_first_unlock"@,
        protection == AccessControlProtection::WhenPasscodeSetThisDeviceOnly ==> protection_bridge_name(protection) == "when_passcode_set_this_device_only"@,
        protection == AccessControlProtection::WhenUnlockedThisDeviceOnly ==> protection_bridge_name(protection) == "when_unlocked_this_device_only"@,
        protection == AccessControlProtection::AfterFirstUnlockThisDeviceOnly ==> protection_bridge_name(protection) == "after_first_unlock_this_device_only"@,
{
}

} // verus!

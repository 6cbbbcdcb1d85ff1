//! Trust policies: the named policy selectors, the property dictionary sent
//! to `SecPolicyCreateWithProperties` and its JSON document.

use vstd::prelude::*;
use vstd::std_specs::convert::FromSpecImpl;
use vstd::string::{StringExecFns, StringSliceAdditionalSpecFns};
use vstd::utf8::encode_utf8;

use crate::bridge::{cstring, cstring_outcome, handle_outcome, required_handle, CreateReply};
use crate::error::{Result, SecurityError};
use crate::json_text::{
    json_bool_text, json_string_literal, owned_string_list_json, owned_texts, serde_json_string,
    string_list_json_text,
};
use crate::text::{lemma_printable_has_no_nul, spec_decimal};

verus! {

/// Mirrors `SecRevocationFlags`.
pub type RevocationFlags = u32;

/// Mirrors named `SecPolicyCreate*` policy selectors.
#[derive(Debug, Clone, Copy, PartialEq, Eq, Hash, Structural)]
pub enum PolicyIdentifier {
    /// `kSecPolicyAppleX509Basic`.
    AppleX509Basic,
    /// `kSecPolicyAppleSSL`.
    AppleSsl,
    /// `kSecPolicyAppleSMIME`.
    AppleSmime,
    /// `kSecPolicyAppleEAP`.
    AppleEap,
    /// `kSecPolicyAppleIPsec`.
    AppleIpsec,
    /// `kSecPolicyApplePKINITClient`.
    ApplePkinitClient,
    /// `kSecPolicyApplePKINITServer`.
    ApplePkinitServer,
    /// `kSecPolicyAppleCodeSigning`.
    AppleCodeSigning,
    /// `kSecPolicyMacAppStoreReceipt`.
    MacAppStoreReceipt,
    /// `kSecPolicyAppleIDValidation`.
    AppleIdValidation,
    /// `kSecPolicyAppleTimeStamping`.
    AppleTimeStamping,
    /// `kSecPolicyAppleRevocation`.
    AppleRevocation,
    /// `kSecPolicyApplePassbookSigning`.
    ApplePassbookSigning,
    /// `kSecPolicyApplePayIssuerEncryption`.
    ApplePayIssuerEncryption,
    /// `kSecPolicyAppleSSLServer`.
    AppleSslServer,
    /// `kSecPolicyAppleSSLClient`.
    AppleSslClient,
    /// `kSecPolicyAppleEAPServer`.
    AppleEapServer,
    /// `kSecPolicyAppleEAPClient`.
    AppleEapClient,
    /// `kSecPolicyAppleIPsecServer`.
    AppleIpsecServer,
    /// `kSecPolicyAppleIPsecClient`.
    AppleIpsecClient,
}

/// The name under which the bridge knows a policy selector.
pub open spec fn policy_bridge_name(identifier: PolicyIdentifier) -> Seq<char> {
    match identifier {
        PolicyIdentifier::AppleX509Basic => "apple_x509_basic"@,
        PolicyIdentifier::AppleSsl => "apple_ssl"@,
        PolicyIdentifier::AppleSmime => "apple_smime"@,
        PolicyIdentifier::AppleEap => "apple_eap"@,
        PolicyIdentifier::AppleIpsec => "apple_ipsec"@,
        PolicyIdentifier::ApplePkinitClient => "apple_pkinit_client"@,
        PolicyIdentifier::ApplePkinitServer => "apple_pkinit_server"@,
        PolicyIdentifier::AppleCodeSigning => "apple_code_signing"@,
        PolicyIdentifier::MacAppStoreReceipt => "mac_app_store_receipt"@,
        PolicyIdentifier::AppleIdValidation => "apple_id_validation"@,
        PolicyIdentifier::AppleTimeStamping => "apple_time_stamping"@,
        PolicyIdentifier::AppleRevocation => "apple_revocation"@,
        PolicyIdentifier::ApplePassbookSigning => "apple_passbook_signing"@,
        PolicyIdentifier::ApplePayIssuerEncryption => "apple_pay_issuer_encryption"@,
        PolicyIdentifier::AppleSslServer => "apple_ssl_server"@,
        PolicyIdentifier::AppleSslClient => "apple_ssl_client"@,
        PolicyIdentifier::AppleEapServer => "apple_eap_server"@,
        PolicyIdentifier::AppleEapClient => "apple_eap_client"@,
        PolicyIdentifier::AppleIpsecServer => "apple_ipsec_server"@,
        PolicyIdentifier::AppleIpsecClient => "apple_ipsec_client"@,
    }
}

impl PolicyIdentifier {
    /// The name under which the bridge knows this selector.
    pub fn as_bridge_name(self) -> (name: &'static str)
        ensures
            name@ == policy_bridge_name(self),
    {
        match self {
            PolicyIdentifier::AppleX509Basic => "apple_x509_basic",
            PolicyIdentifier::AppleSsl => "apple_ssl",
            PolicyIdentifier::AppleSmime => "apple_smime",
            PolicyIdentifier::AppleEap => "apple_eap",
            PolicyIdentifier::AppleIpsec => "apple_ipsec",
            PolicyIdentifier::ApplePkinitClient => "apple_pkinit_client",
            PolicyIdentifier::ApplePkinitServer => "apple_pkinit_server",
            PolicyIdentifier::AppleCodeSigning => "apple_code_signing",
            PolicyIdentifier::MacAppStoreReceipt => "mac_app_store_receipt",
            PolicyIdentifier::AppleIdValidation => "apple_id_validation",
            PolicyIdentifier::AppleTimeStamping => "apple_time_stamping",
            PolicyIdentifier::AppleRevocation => "apple_revocation",
            PolicyIdentifier::ApplePassbookSigning => "apple_passbook_signing",
            PolicyIdentifier::ApplePayIssuerEncryption => "apple_pay_issuer_encryption",
            PolicyIdentifier::AppleSslServer => "apple_ssl_server",
            PolicyIdentifier::AppleSslClient => "apple_ssl_client",
            PolicyIdentifier::AppleEapServer => "apple_eap_server",
            PolicyIdentifier::AppleEapClient => "apple_eap_client",
            PolicyIdentifier::AppleIpsecServer => "apple_ipsec_server",
            PolicyIdentifier::AppleIpsecClient => "apple_ipsec_client",
        }
    }
}

/// Distinct policy selectors have distinct bridge names.
pub proof fn lemma_policy_names_distinct(a: PolicyIdentifier, b: PolicyIdentifier)
    ensures
        policy_bridge_name(a) == policy_bridge_name(b) ==> a == b,
{
    reveal_strlit("apple_x509_basic");
    reveal_strlit("apple_ssl");
    reveal_strlit("apple_smime");
    reveal_strlit("apple_eap");
    reveal_strlit("apple_ipsec");
    reveal_strlit("apple_pkinit_client");
    reveal_strlit("apple_pkinit_server");
    reveal_strlit("apple_code_signing");
    reveal_strlit("mac_app_store_receipt");
    reveal_strlit("apple_id_validation");
    reveal_strlit("apple_time_stamping");
    reveal_strlit("apple_revocation");
    reveal_strlit("apple_passbook_signing");
    reveal_strlit("apple_pay_issuer_encryption");
    reveal_strlit("apple_ssl_server");
    reveal_strlit("apple_ssl_client");
    reveal_strlit("apple_eap_server");
    reveal_strlit("apple_eap_client");
    reveal_strlit("apple_ipsec_server");
    reveal_strlit("apple_ipsec_client");
    if policy_bridge_name(a) == policy_bridge_name(b) && a != b {
        let na = policy_bridge_name(a);
        let nb = policy_bridge_name(b);
        assert(na.len() != nb.len() || na[6] != nb[6] || na[13] != nb[13]);
    }
}

/// Mirrors name inputs passed to `SecPolicyCreateWithProperties`: one name,
/// written as a JSON string, or several, written as an array.
#[derive(Debug, Clone, PartialEq, Eq)]
pub enum PolicyName {
    /// One name.
    Single(String),
    /// Several names.
    Multiple(Vec<String>),
}

impl From<String> for PolicyName {
    fn from(value: String) -> (name: Self) {
        PolicyName::Single(value)
    }
}

impl FromSpecImpl<String> for PolicyName {
    open spec fn obeys_from_spec() -> bool {
        true
    }

    open spec fn from_spec(value: String) -> Self {
        PolicyName::Single(value)
    }
}

impl From<&str> for PolicyName {
    fn from(value: &str) -> (name: Self) {
        PolicyName::Single(value.to_string())
    }
}

impl FromSpecImpl<&str> for PolicyName {
    /// A `String` is not determined by its characters in these
    /// specifications, so no result is promised for a `&str`.
    open spec fn obeys_from_spec() -> bool {
        false
    }

    open spec fn from_spec(value: &str) -> Self {
        PolicyName::Single(arbitrary())
    }
}

/// Mirrors the property dictionary passed to `SecPolicyCreateWithProperties`;
/// a property left `None` is not written.
#[derive(Debug, Clone, PartialEq, Eq)]
pub struct PolicyProperties {
    /// The name or names the policy checks for.
    pub name: Option<PolicyName>,
    /// Whether the policy evaluates a client certificate.
    pub client: Option<bool>,
    /// The revocation flags of the policy.
    pub revocation_flags: Option<RevocationFlags>,
    /// The team identifier the policy checks for.
    pub team_identifier: Option<String>,
}

impl Default for PolicyProperties {
    /// No property set.
    fn default() -> (properties: Self)
        ensures
            properties.name is None,
            properties.client is None,
            properties.revocation_flags is None,
            properties.team_identifier is None,
    {
        PolicyProperties { name: None, client: None, revocation_flags: None, team_identifier: None }
    }
}

/// The JSON value of a policy name.
pub open spec fn name_json_text(name: PolicyName) -> std::result::Result<Seq<char>, Seq<char>> {
    match name {
        PolicyName::Single(text) => serde_json_string(text@),
        PolicyName::Multiple(texts) => string_list_json_text(owned_texts(texts@)),
    }
}

/// A member of a JSON object: its quoted key and colon, then its value.
pub open spec fn member_text(key: Seq<char>, value: Seq<char>) -> Seq<char> {
    key + value
}

/// The members written so far followed by one more, with a comma between.
pub open spec fn joined_members(written: Seq<char>, member: Seq<char>) -> Seq<char> {
    if written.len() == 0 {
        member
    } else {
        written + ","@ + member
    }
}

/// The members of the properties document: each property that is set, in
/// declaration order; the first value that cannot be written decides the error.
pub open spec fn properties_members(properties: PolicyProperties) -> std::result::Result<
    Seq<char>,
    Seq<char>,
> {
    let after_name = match properties.name {
        None => Ok(Seq::<char>::empty()),
        Some(name) => match name_json_text(name) {
            Ok(value) => Ok(member_text("\"name\":"@, value)),
            Err(message) => Err(message),
        },
    };
    match after_name {
        Err(message) => Err(message),
        Ok(written) => {
            let after_client = match properties.client {
                None => written,
                Some(client) => joined_members(written, member_text("\"client\":"@, json_bool_text(client))),
            };
            let after_flags = match properties.revocation_flags {
                None => after_client,
                Some(flags) => joined_members(
                    after_client,
                    member_text("\"revocation_flags\":"@, spec_decimal(flags as nat)),
                ),
            };
            match properties.team_identifier {
                None => Ok(after_flags),
                Some(team) => match serde_json_string(team@) {
                    Ok(value) => Ok(joined_members(after_flags, member_text("\"team_identifier\":"@, value))),
                    Err(message) => Err(message),
                },
            }
        },
    }
}

/// The text of the error for properties that could not be written.
pub open spec fn properties_error_text(message: Seq<char>) -> Seq<char> {
    "policy properties JSON failed: "@ + message
}

impl PolicyProperties {
    /// Whether no property is set.
    pub fn is_empty(&self) -> (empty: bool)
        ensures
            empty == (self.name is None && self.client is None && self.revocation_flags is None
                && self.team_identifier is None),
    {
        self.name.is_none() && self.client.is_none() && self.revocation_flags.is_none()
            && self.team_identifier.is_none()
    }

    /// The properties document the bridge reads: `None` when no property is
    /// set (nothing is sent), the JSON object of the set properties otherwise.
    pub fn bridge_json(&self) -> (result: Result<Option<String>>)
        ensures
            self.name is None && self.client is None && self.revocation_flags is None
                && self.team_identifier is None ==> result == Ok::<Option<String>, SecurityError>(
                None,
            ),
            !(self.name is None && self.client is None && self.revocation_flags is None
                && self.team_identifier is None) ==> match properties_members(*self) {
                Ok(members) => result matches Ok(Some(json)) && json@ == "{"@ + members + "}"@,
                Err(message) => result matches Err(SecurityError::Serialization(text)) && text@
                    == properties_error_text(message),
            },
    {
        if self.is_empty() {
            return Ok(None);
        }
        match self.members() {
            Ok(members) => {
                let mut json = "{".to_string();
                json.append(members.as_str());
                json.append("}");
                Ok(Some(json))
            },
            Err(message) => Err(
                SecurityError::Serialization(
                    crate::text::joined("policy properties JSON failed: ", message.as_str()),
                ),
            ),
        }
    }

    /// The members of the properties document, or the text of the error of
    /// the first value that could not be written.
    fn members(&self) -> (result: std::result::Result<String, String>)
        ensures
            match properties_members(*self) {
                Ok(members) => result matches Ok(text) && text@ == members,
                Err(message) => result matches Err(text) && text@ == message,
            },
    {
        let mut members = String::new();
        match &self.name {
            None => {},
            Some(name) => {
                let value = match name {
                    PolicyName::Single(text) => json_string_literal(text.as_str()),
                    PolicyName::Multiple(texts) => owned_string_list_json(texts.as_slice()),
                };
                match value {
                    Ok(value) => {
                        members.append("\"name\":");
                        members.append(value.as_str());
                    },
                    Err(message) => return Err(message),
                }
            },
        }
        match self.client {
            None => {},
            Some(client) => {
                let ghost written = members@;
                append_separator(&mut members);
                members.append("\"client\":");
                members.append(if client { "true" } else { "false" });
                assert(members@ =~= joined_members(written, member_text("\"client\":"@, json_bool_text(client))));
            },
        }
        match self.revocation_flags {
            None => {},
            Some(flags) => {
                let ghost written = members@;
                append_separator(&mut members);
                members.append("\"revocation_flags\":");
                crate::text::push_decimal(&mut members, flags as u64);
                assert(members@ =~= joined_members(
                    written,
                    member_text("\"revocation_flags\":"@, spec_decimal(flags as nat)),
                ));
            },
        }
        match &self.team_identifier {
            None => {},
            Some(team) => {
                match json_string_literal(team.as_str()) {
                    Ok(value) => {
                        let ghost written = members@;
                        append_separator(&mut members);
                        members.append("\"team_identifier\":");
                        members.append(value.as_str());
                        assert(members@ =~= joined_members(
                            written,
                            member_text("\"team_identifier\":"@, value@),
                        ));
                    },
                    Err(message) => return Err(message),
                }
            },
        }
        Ok(members)
    }
}

/// Appends the comma that separates a member from the ones before it.
fn append_separator(members: &mut String)
    ensures
        old(members)@.len() == 0 ==> final(members)@ == old(members)@,
        old(members)@.len() != 0 ==> final(members)@ == old(members)@ + ","@,
{
    if !members.as_str().is_empty() {
        members.append(",");
    }
}

/// Wraps `SecPolicyRef`.
#[derive(Debug)]
pub struct Policy<H> {
    handle: H,
}

impl<H> Policy<H> {
    /// The bridge handle this value holds.
    pub closed spec fn spec_handle(&self) -> H {
        self.handle
    }

    /// Wraps a handle that the bridge returned.
    pub fn from_handle(handle: H) -> (value: Self)
        ensures
            value.spec_handle() == handle,
    {
        Policy { handle }
    }

    /// The bridge handle this value holds.
    pub fn handle(&self) -> (handle: &H)
        ensures
            *handle == self.spec_handle(),
    {
        &self.handle
    }
}

/// What creating a policy with properties hands to its bridge call: the
/// selector's bridge name and, when a property is set, the properties
/// document, each as a C string.
#[derive(Debug)]
pub struct PolicyCall {
    /// The selector's bridge name, NUL-terminated.
    pub identifier: Vec<u8>,
    /// The properties document, NUL-terminated, when a property is set.
    pub properties: Option<Vec<u8>>,
}

/// The bridge operation that creates a policy with properties.
pub const CREATE_WITH_PROPERTIES: &'static str = "security_policy_create_with_properties";

/// The handle a policy result holds, or its error.
pub open spec fn policy_handle<H>(result: Result<Policy<H>>) -> Result<H> {
    match result {
        Ok(policy) => Ok(policy.spec_handle()),
        Err(error) => Err(error),
    }
}

/// Whether any property is set.
pub open spec fn has_properties(properties: PolicyProperties) -> bool {
    !(properties.name is None && properties.client is None && properties.revocation_flags is None
        && properties.team_identifier is None)
}

/// The properties document: `None` when no property is set, otherwise the
/// JSON object of the set properties or the error of the first value that
/// could not be written.
pub open spec fn properties_document(properties: PolicyProperties) -> Option<
    std::result::Result<Seq<char>, Seq<char>>,
> {
    if has_properties(properties) {
        match properties_members(properties) {
            Ok(members) => Some(Ok("{"@ + members + "}"@)),
            Err(message) => Some(Err(message)),
        }
    } else {
        None
    }
}

/// The bridge call `create`, handed the selector's name and `document`,
/// replied with what `result` holds.
pub open spec fn policy_sent<H, F: FnOnce(PolicyCall) -> CreateReply<H>>(
    result: Result<Policy<H>>,
    identifier: PolicyIdentifier,
    document: Option<Seq<u8>>,
    create: F,
) -> bool {
    exists|arguments: PolicyCall, reply: CreateReply<H>|
        {
            &&& arguments.identifier@ == encode_utf8(policy_bridge_name(identifier)).push(0u8)
            &&& match document {
                Some(bytes) => arguments.properties matches Some(sent) && sent@ == bytes,
                None => arguments.properties is None,
            }
            &&& create.ensures((arguments,), reply)
            &&& handle_outcome(
                policy_handle(result),
                CREATE_WITH_PROPERTIES,
                reply.0,
                reply.1,
                reply.2,
            )
        }
}

/// `result` is what creating the policy `identifier` with the properties
/// document `document` comes to: the document's error, or the refusal of a
/// document holding a NUL byte, before any call; otherwise what the call
/// handed the name and the document (none without properties) replied.
pub open spec fn policy_creation_outcome<H, F: FnOnce(PolicyCall) -> CreateReply<H>>(
    result: Result<Policy<H>>,
    identifier: PolicyIdentifier,
    document: Option<std::result::Result<Seq<char>, Seq<char>>>,
    create: F,
) -> bool {
    match document {
        Some(Err(message)) => result matches Err(SecurityError::Serialization(text)) && text@
            == properties_error_text(message),
        Some(Ok(text)) => if encode_utf8(text).contains(0u8) {
            result matches Err(error) && cstring_outcome(encode_utf8(text), Err(error))
        } else {
            policy_sent(result, identifier, Some(encode_utf8(text).push(0u8)), create)
        },
        None => policy_sent(result, identifier, None, create),
    }
}

impl<H> Policy<H> {
    /// The policy `identifier` with `properties`, made by the bridge call
    /// `create`. The properties document is sent only when a property is set;
    /// a document that cannot be written, or that holds a NUL byte, is refused
    /// before the call.
    pub fn with_properties<F>(
        identifier: PolicyIdentifier,
        properties: &PolicyProperties,
        create: F,
    ) -> (result: Result<Self>)
        where
            F: FnOnce(PolicyCall) -> CreateReply<H>,
        requires
            forall|call: PolicyCall| create.requires((call,)),
        ensures
            policy_creation_outcome(result, identifier, properties_document(*properties), create),
    {
        let name = identifier.as_bridge_name();
        let identifier_c = match cstring(name) {
            Ok(bytes) => bytes,
            Err(error) => {
                proof {
                    lemma_bridge_names_have_no_nul(identifier);
                }
                return Err(error);
            },
        };
        let document = match properties.bridge_json() {
            Ok(document) => document,
            Err(error) => return Err(error),
        };
        let properties_c = match document {
            None => None,
            Some(json) => match cstring(json.as_str()) {
                Ok(bytes) => Some(bytes),
                Err(error) => return Err(error),
            },
        };
        let arguments = PolicyCall { identifier: identifier_c, properties: properties_c };
        let (handle, status, error_text) = create(arguments);
        match required_handle(CREATE_WITH_PROPERTIES, handle, status, error_text) {
            Ok(handle) => Ok(Policy { handle }),
            Err(error) => Err(error),
        }
    }
}

/// What creating an SSL policy hands to its bridge call: whether the policy
/// checks a server, and the hostname to verify as a C string, `None` to
/// accept any hostname.
#[derive(Debug)]
pub struct SslCall {
    /// Whether the policy evaluates a server's certificate.
    pub server: bool,
    /// The hostname to verify, NUL-terminated, if one is verified.
    pub hostname: Option<Vec<u8>>,
}

/// The bridge operation that creates an SSL policy.
pub const CREATE_SSL: &'static str = "security_policy_create_ssl";

/// The bridge call `create`, handed `server` and the C string `hostname`
/// (`None` for any hostname), replied with what `result` holds.
pub open spec fn ssl_sent<H, F: FnOnce(SslCall) -> CreateReply<H>>(
    result: Result<Policy<H>>,
    server: bool,
    hostname: Option<Seq<u8>>,
    create: F,
) -> bool {
    exists|arguments: SslCall, reply: CreateReply<H>|
        {
            &&& arguments.server == server
            &&& match hostname {
                Some(bytes) => arguments.hostname matches Some(sent) && sent@ == bytes,
                None => arguments.hostname is None,
            }
            &&& create.ensures((arguments,), reply)
            &&& handle_outcome(policy_handle(result), CREATE_SSL, reply.0, reply.1, reply.2)
        }
}

impl<H> Policy<H> {
    /// The SSL policy for a server (or a client) that verifies `hostname`,
    /// made by the bridge call `create`; a hostname holding a NUL byte is
    /// refused before the call.
    pub fn ssl<F>(server: bool, hostname: &str, create: F) -> (result: Result<Self>)
        where
            F: FnOnce(SslCall) -> CreateReply<H>,
        requires
            forall|call: SslCall| create.requires((call,)),
        ensures
            hostname.spec_bytes().contains(0u8) ==> (result matches Err(error) && cstring_outcome(
                hostname.spec_bytes(),
                Err(error),
            )),
            !hostname.spec_bytes().contains(0u8) ==> ssl_sent(
                result,
                server,
                Some(hostname.spec_bytes().push(0u8)),
                create,
            ),
    {
        let hostname_c = match cstring(hostname) {
            Ok(bytes) => bytes,
            Err(error) => return Err(error),
        };
        Self::create_ssl(server, Some(hostname_c), create)
    }

    /// The SSL policy for a server (or a client) that accepts any hostname:
    /// the explicit opt-out of hostname verification, made by the bridge call
    /// `create`.
    pub fn ssl_any_hostname<F>(server: bool, create: F) -> (result: Result<Self>)
        where
            F: FnOnce(SslCall) -> CreateReply<H>,
        requires
            forall|call: SslCall| create.requires((call,)),
        ensures
            ssl_sent(result, server, None, create),
    {
        Self::create_ssl(server, None, create)
    }

    /// Hands `server` and `hostname` to the bridge call `create`.
    fn create_ssl<F>(server: bool, hostname: Option<Vec<u8>>, create: F) -> (result: Result<Self>)
        where
            F: FnOnce(SslCall) -> CreateReply<H>,
        requires
            forall|call: SslCall| create.requires((call,)),
        ensures
            ssl_sent(
                result,
                server,
                match hostname {
                    Some(bytes) => Some(bytes@),
                    None => None,
                },
                create,
            ),
    {
        let arguments = SslCall { server, hostname };
        let ghost handed = arguments;
        let reply = create(arguments);
        let ghost kept = reply;
        let (handle, status, error_text) = reply;
        let result = match required_handle(CREATE_SSL, handle, status, error_text) {
            Ok(handle) => Ok(Policy { handle }),
            Err(error) => Err(error),
        };
        assert(handle_outcome(policy_handle(result), CREATE_SSL, kept.0, kept.1, kept.2));
        result
    }
}

/// No bridge name of a selector holds a NUL byte.
pub proof fn lemma_bridge_names_have_no_nul(identifier: PolicyIdentifier)
    ensures
        !encode_utf8(policy_bridge_name(identifier)).contains(0u8),
{
    match identifier {
        PolicyIdentifier::AppleX509Basic => {
            reveal_strlit("apple_x509_basic");
            lemma_printable_has_no_nul(policy_bridge_name(identifier));
        },
        PolicyIdentifier::AppleSsl => {
            reveal_strlit("apple_ssl");
            lemma_printable_has_no_nul(policy_bridge_name(identifier));
        },
        PolicyIdentifier::AppleSmime => {
            reveal_strlit("apple_smime");
            lemma_printable_has_no_nul(policy_bridge_name(identifier));
        },
        PolicyIdentifier::AppleEap => {
            reveal_strlit("apple_eap");
            lemma_printable_has_no_nul(policy_bridge_name(identifier));
        },
        PolicyIdentifier::AppleIpsec => {
            reveal_strlit("apple_ipsec");
            lemma_printable_has_no_nul(policy_bridge_name(identifier));
        },
        PolicyIdentifier::ApplePkinitClient => {
            reveal_strlit("apple_pkinit_client");
            lemma_printable_has_no_nul(policy_bridge_name(identifier));
        },
        PolicyIdentifier::ApplePkinitServer => {
            reveal_strlit("apple_pkinit_server");
            lemma_printable_has_no_nul(policy_bridge_name(identifier));
        },
        PolicyIdentifier::AppleCodeSigning => {
            reveal_strlit("apple_code_signing");
            lemma_printable_has_no_nul(policy_bridge_name(identifier));
        },
        PolicyIdentifier::MacAppStoreReceipt => {
            reveal_strlit("mac_app_store_receipt");
            lemma_printable_has_no_nul(policy_bridge_name(identifier));
        },
        PolicyIdentifier::AppleIdValidation => {
            reveal_strlit("apple_id_validation");
            lemma_printable_has_no_nul(policy_bridge_name(identifier));
        },
        PolicyIdentifier::AppleTimeStamping => {
            reveal_strlit("apple_time_stamping");
            lemma_printable_has_no_nul(policy_bridge_name(identifier));
        },
        PolicyIdentifier::AppleRevocation => {
            reveal_strlit("apple_revocation");
            lemma_printable_has_no_nul(policy_bridge_name(identifier));
        },
        PolicyIdentifier::ApplePassbookSigning => {
            reveal_strlit("apple_passbook_signing");
            lemma_printable_has_no_nul(policy_bridge_name(identifier));
        },
        PolicyIdentifier::ApplePayIssuerEncryption => {
            reveal_strlit("apple_pay_issuer_encryption");
            lemma_printable_has_no_nul(policy_bridge_name(identifier));
        },
        PolicyIdentifier::AppleSslServer => {
            reveal_strlit("apple_ssl_server");
            lemma_printable_has_no_nul(policy_bridge_name(identifier));
        },
        PolicyIdentifier::AppleSslClient => {
            reveal_strlit("apple_ssl_client");
            lemma_printable_has_no_nul(policy_bridge_name(identifier));
        },
        PolicyIdentifier::AppleEapServer => {
            reveal_strlit("apple_eap_server");
            lemma_printable_has_no_nul(policy_bridge_name(identifier));
        },
        PolicyIdentifier::AppleEapClient => {
            reveal_strlit("apple_eap_client");
            lemma_printable_has_no_nul(policy_bridge_name(identifier));
        },
        PolicyIdentifier::AppleIpsecServer => {
            reveal_strlit("apple_ipsec_server");
            lemma_printable_has_no_nul(policy_bridge_name(identifier));
        },
        PolicyIdentifier::AppleIpsecClient => {
            reveal_strlit("apple_ipsec_client");
            lemma_printable_has_no_nul(policy_bridge_name(identifier));
        },
    }
}

/// Each policy selector is sent under its own name: the `kSecPolicyApple` constant it stands for, in snake case.
pub proof fn lemma_policy_names(identifier: PolicyIdentifier)
    ensures
        identifier == PolicyIdentifier::AppleX509Basic ==> policy_bridge_name(identifier) == "apple_x509_basic"@,
        identifier == PolicyIdentifier::AppleSsl ==> policy_bridge_name(identifier) == "apple_ssl"@,
        identifier == PolicyIdentifier::AppleSmime ==> policy_bridge_name(identifier) == "apple_smime"@,
        identifier == PolicyIdentifier::AppleEap ==> policy_bridge_name(identifier) == "apple_eap"@,
        identifier == PolicyIdentifier::AppleIpsec ==> policy_bridge_name(identifier) == "apple_ipsec"@,
        identifier == PolicyIdentifier::ApplePkinitClient ==> policy_bridge_name(identifier) == "apple_pkinit_client"@,
        identifier == PolicyIdentifier::ApplePkinitServer ==> policy_bridge_name(identifier) == "apple_pkinit_server"@,
        identifier == PolicyIdentifier::AppleCodeSigning ==> policy_bridge_name(identifier) == "apple_code_signing"@,
        identifier == PolicyIdentifier::MacAppStoreReceipt ==> policy_bridge_name(identifier) == "mac_app_store_receipt"@,
        identifier == PolicyIdentifier::AppleIdValidation ==> policy_bridge_name(identifier) == "apple_id_validation"@,
        identifier == PolicyIdentifier::AppleTimeStamping ==> policy_bridge_name(identifier) == "apple_time_stamping"@,
        identifier == PolicyIdentifier::AppleRevocation ==> policy_bridge_name(identifier) == "apple_revocation"@,
        identifier == PolicyIdentifier::ApplePassbookSigning ==> policy_bridge_name(identifier) == "apple_passbook_signing"@,
        identifier == PolicyIdentifier::ApplePayIssuerEncryption ==> policy_bridge_name(identifier) == "apple_pay_issuer_encryption"@,
        identifier == PolicyIdentifier::AppleSslServer ==> policy_bridge_name(identifier) == "apple_ssl_server"@,
        identifier == PolicyIdentifier::AppleSslClient ==> policy_bridge_name(identifier) == "apple_ssl_client"@,
        identifier == PolicyIdentifier::AppleEapServer ==> policy_bridge_name(identifier) == "apple_eap_server"@,
        identifier == PolicyIdentifier::AppleEapClient ==> policy_bridge_name(identifier) == "apple_eap_client"@,
        identifier == PolicyIdentifier::AppleIpsecServer ==> policy_bridge_name(identifier) == "apple_ipsec_server"@,
        identifier == PolicyIdentifier::AppleIpsecClient ==> policy_bridge_name(identifier) == "apple_ipsec_client"@,
{
}

} // verus!

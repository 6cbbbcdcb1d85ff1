//! Cryptographic Message Syntax: encoder options, signer reports and the
//! decoding of what the CMS decoder says about its signers.

use vstd::prelude::*;
use vstd::std_specs::ops::BitOrSpecImpl;

use crate::bridge::{is_status_error, status_error};
use crate::error::{OsStatus, Result, SecurityError};
use crate::json::{spec_get, spec_number_as_i64, spec_number_as_u64, JsonNumber, JsonValue};
use crate::text::spec_decimal;

verus! {

/// Mirrors signed-attribute bits used by the CMS encoder APIs.
#[derive(Debug, Clone, Copy, PartialEq, Eq, Hash, Structural)]
pub struct CmsSignedAttributes(u32);

impl View for CmsSignedAttributes {
    type V = u32;

    closed spec fn view(&self) -> u32 {
        self.0
    }
}

impl CmsSignedAttributes {
    /// The bits of all named flags together.
    pub open spec fn all_bits() -> u32 {
        0x7f
    }

    /// The set that `from_bits` gives for `bits`: the bits themselves when
    /// they name only known flags, nothing otherwise.
    pub closed spec fn spec_from_bits(bits: u32) -> Option<Self> {
        if bits & Self::all_bits() == bits {
            Some(CmsSignedAttributes(bits))
        } else {
            None
        }
    }

    /// No signed attribute.
    pub fn none() -> (flags: Self)
        ensures
            flags@ == 0x0,
    {
        CmsSignedAttributes(0x0)
    }

    /// `kCMSAttrSmimeCapabilities`.
    pub fn smime_capabilities() -> (flags: Self)
        ensures
            flags@ == 0x1,
    {
        CmsSignedAttributes(0x1)
    }

    /// `kCMSAttrSmimeEncryptionKeyPrefs`.
    pub fn smime_encryption_key_prefs() -> (flags: Self)
        ensures
            flags@ == 0x2,
    {
        CmsSignedAttributes(0x2)
    }

    /// `kCMSAttrSmimeMSEncryptionKeyPrefs`.
    pub fn smime_ms_encryption_key_prefs() -> (flags: Self)
        ensures
            flags@ == 0x4,
    {
        CmsSignedAttributes(0x4)
    }

    /// `kCMSAttrSigningTime`.
    pub fn signing_time() -> (flags: Self)
        ensures
            flags@ == 0x8,
    {
        CmsSignedAttributes(0x8)
    }

    /// `kCMSAttrAppleCodesigningHashAgility`.
    pub fn apple_codesigning_hash_agility() -> (flags: Self)
        ensures
            flags@ == 0x10,
    {
        CmsSignedAttributes(0x10)
    }

    /// `kCMSAttrAppleCodesigningHashAgilityV2`.
    pub fn apple_codesigning_hash_agility_v2() -> (flags: Self)
        ensures
            flags@ == 0x20,
    {
        CmsSignedAttributes(0x20)
    }

    /// `kCMSAttrAppleExpirationTime`.
    pub fn apple_expiration_time() -> (flags: Self)
        ensures
            flags@ == 0x40,
    {
        CmsSignedAttributes(0x40)
    }

    /// The empty set.
    pub fn empty() -> (flags: Self)
        ensures
            flags@ == 0,
    {
        CmsSignedAttributes(0)
    }

    /// The set of every named flag.
    pub fn all() -> (flags: Self)
        ensures
            flags@ == Self::all_bits(),
    {
        CmsSignedAttributes(0x7f)
    }

    /// The raw bits of the set.
    pub fn bits(&self) -> (bits: u32)
        ensures
            bits == self@,
    {
        self.0
    }

    /// The set with exactly `bits`, or `None` when `bits` holds a bit that
    /// names no flag.
    pub fn from_bits(bits: u32) -> (flags: Option<Self>)
        ensures
            flags == Self::spec_from_bits(bits),
            flags is Some <==> bits & Self::all_bits() == bits,
            flags matches Some(f) ==> f@ == bits,
    {
        if bits & 0x7f == bits {
            Some(CmsSignedAttributes(bits))
        } else {
            None
        }
    }

    /// The set with the named flags among `bits`; other bits are dropped.
    pub fn from_bits_truncate(bits: u32) -> (flags: Self)
        ensures
            flags@ == bits & Self::all_bits(),
    {
        CmsSignedAttributes(bits & 0x7f)
    }

    /// The set with exactly `bits`, named or not.
    pub fn from_bits_retain(bits: u32) -> (flags: Self)
        ensures
            flags@ == bits,
    {
        CmsSignedAttributes(bits)
    }

    /// Whether no bit is set.
    pub fn is_empty(&self) -> (empty: bool)
        ensures
            empty == (self@ == 0),
    {
        self.0 == 0
    }

    /// Whether every named flag is set.
    pub fn is_all(&self) -> (all: bool)
        ensures
            all == (Self::all_bits() | self@ == self@),
    {
        0x7f | self.0 == self.0
    }

    /// Whether the two sets share a bit.
    pub fn intersects(&self, other: Self) -> (shared: bool)
        ensures
            shared == (self@ & other@ != 0),
    {
        self.0 & other.0 != 0
    }

    /// Whether every bit of `other` is set here.
    pub fn contains(&self, other: Self) -> (contained: bool)
        ensures
            contained == (self@ & other@ == other@),
    {
        self.0 & other.0 == other.0
    }

    /// Sets the bits of `other`.
    pub fn insert(&mut self, other: Self)
        ensures
            final(self)@ == old(self)@ | other@,
    {
        self.0 = self.0 | other.0;
    }

    /// Clears the bits of `other`.
    pub fn remove(&mut self, other: Self)
        ensures
            final(self)@ == old(self)@ & !other@,
    {
        self.0 = self.0 & !other.0;
    }

    /// Flips the bits of `other`.
    pub fn toggle(&mut self, other: Self)
        ensures
            final(self)@ == old(self)@ ^ other@,
    {
        self.0 = self.0 ^ other.0;
    }

    /// Sets the bits of `other` when `value` holds, clears them otherwise.
    pub fn set(&mut self, other: Self, value: bool)
        ensures
            final(self)@ == if value {
                old(self)@ | other@
            } else {
                old(self)@ & !other@
            },
    {
        if value {
            self.insert(other);
        } else {
            self.remove(other);
        }
    }

    /// The bits set in either set.
    pub fn union(self, other: Self) -> (flags: Self)
        ensures
            flags@ == self@ | other@,
    {
        CmsSignedAttributes(self.0 | other.0)
    }

    /// The bits set in both sets.
    pub fn intersection(self, other: Self) -> (flags: Self)
        ensures
            flags@ == self@ & other@,
    {
        CmsSignedAttributes(self.0 & other.0)
    }

    /// The bits set here and not in `other`.
    pub fn difference(self, other: Self) -> (flags: Self)
        ensures
            flags@ == self@ & !other@,
    {
        CmsSignedAttributes(self.0 & !other.0)
    }

    /// The bits set in exactly one of the sets.
    pub fn symmetric_difference(self, other: Self) -> (flags: Self)
        ensures
            flags@ == self@ ^ other@,
    {
        CmsSignedAttributes(self.0 ^ other.0)
    }

    /// The named flags that are not set here.
    pub fn complement(self) -> (flags: Self)
        ensures
            flags@ == !self@ & Self::all_bits(),
    {
        CmsSignedAttributes(!self.0 & 0x7f)
    }
}

impl core::ops::BitOr for CmsSignedAttributes {
    type Output = Self;

    fn bitor(self, other: Self) -> (flags: Self) {
        CmsSignedAttributes(self.0 | other.0)
    }
}

impl BitOrSpecImpl for CmsSignedAttributes {
    open spec fn obeys_bitor_spec() -> bool {
        true
    }

    open spec fn bitor_req(self, other: Self) -> bool {
        true
    }

    closed spec fn bitor_spec(self, other: Self) -> Self {
        CmsSignedAttributes(self.0 | other.0)
    }
}

/// A set of named flags comes back unchanged through its bits.
pub proof fn lemma_cms_signed_attributes_bits_round_trip(flags: CmsSignedAttributes)
    requires
        flags@ & CmsSignedAttributes::all_bits() == flags@,
    ensures
        CmsSignedAttributes::spec_from_bits(flags@) == Some(flags),
{
}

/// A union holds every bit of both of its operands.
pub proof fn lemma_cms_signed_attributes_union_contains(a: CmsSignedAttributes, b: CmsSignedAttributes)
    ensures
        (a@ | b@) & a@ == a@,
        (a@ | b@) & b@ == b@,
{
    crate::bitset::lemma_u32_union_contains(a@, b@);
}

/// Removing a set leaves none of its bits.
pub proof fn lemma_cms_signed_attributes_remove_clears(a: CmsSignedAttributes, b: CmsSignedAttributes)
    ensures
        (a@ & !b@) & b@ == 0,
{
    crate::bitset::lemma_u32_remove_clears(a@, b@);
}

/// Mirrors certificate-chain modes used by `CMSEncoder`.
#[derive(Debug, Clone, Copy, PartialEq, Eq, Hash, Structural)]
pub enum CmsCertificateChainMode {
    /// `kCMSCertificateNone`.
    NoCertificates,
    /// `kCMSCertificateSignerOnly`.
    SignerOnly,
    /// `kCMSCertificateChain`.
    Chain,
    /// `kCMSCertificateChainWithRoot`.
    ChainWithRoot,
    /// `kCMSCertificateChainWithRootOrFail`.
    ChainWithRootOrFail,
}

/// The raw value of a certificate-chain mode.
pub open spec fn spec_chain_mode_raw(mode: CmsCertificateChainMode) -> u32 {
    match mode {
        CmsCertificateChainMode::NoCertificates => 0,
        CmsCertificateChainMode::SignerOnly => 1,
        CmsCertificateChainMode::Chain => 2,
        CmsCertificateChainMode::ChainWithRoot => 3,
        CmsCertificateChainMode::ChainWithRootOrFail => 4,
    }
}

/// The text of the error for a raw value that names no chain mode.
pub open spec fn unknown_chain_mode_text(raw: u32) -> Seq<char> {
    "unexpected CMS certificate chain mode: "@ + spec_decimal(raw as nat)
}

impl CmsCertificateChainMode {
    /// The raw value of this mode.
    pub fn raw(self) -> (raw: u32)
        ensures
            raw == spec_chain_mode_raw(self),
    {
        match self {
            CmsCertificateChainMode::NoCertificates => 0,
            CmsCertificateChainMode::SignerOnly => 1,
            CmsCertificateChainMode::Chain => 2,
            CmsCertificateChainMode::ChainWithRoot => 3,
            CmsCertificateChainMode::ChainWithRootOrFail => 4,
        }
    }

    /// The mode with the raw value `raw`; values above 4 are refused.
    pub fn from_raw(raw: u32) -> (result: Result<Self>)
        ensures
            match result {
                Ok(mode) => raw <= 4 && spec_chain_mode_raw(mode) == raw,
                Err(error) => raw > 4 && (error matches SecurityError::InvalidArgument(message)
                    && message@ == unknown_chain_mode_text(raw)),
            },
    {
        match raw {
            0 => Ok(CmsCertificateChainMode::NoCertificates),
            1 => Ok(CmsCertificateChainMode::SignerOnly),
            2 => Ok(CmsCertificateChainMode::Chain),
            3 => Ok(CmsCertificateChainMode::ChainWithRoot),
            4 => Ok(CmsCertificateChainMode::ChainWithRootOrFail),
            _ => Err(
                SecurityError::InvalidArgument(
                    crate::text::with_decimal("unexpected CMS certificate chain mode: ", raw as u64),
                ),
            ),
        }
    }
}

/// Each chain mode comes back unchanged through its raw value.
pub proof fn lemma_chain_mode_raw_round_trip(a: CmsCertificateChainMode, b: CmsCertificateChainMode)
    ensures
        spec_chain_mode_raw(a) <= 4,
        spec_chain_mode_raw(a) == spec_chain_mode_raw(b) ==> a == b,
{
}

/// The mode that the encoder reports: a nonzero status is reported first,
/// then the raw value is decoded.
pub fn chain_mode_outcome(status: OsStatus, raw: u32, error_text: Result<Option<String>>) -> (result:
    Result<CmsCertificateChainMode>)
    ensures
        status != 0 ==> match error_text {
            Ok(text) => result matches Err(error) && is_status_error(
                error,
                "security_cms_encoder_get_certificate_chain_mode",
                status,
                text,
            ),
            Err(read_error) => result == Err::<CmsCertificateChainMode, SecurityError>(read_error),
        },
        status == 0 ==> match result {
            Ok(mode) => raw <= 4 && spec_chain_mode_raw(mode) == raw,
            Err(error) => raw > 4 && (error matches SecurityError::InvalidArgument(message)
                && message@ == unknown_chain_mode_text(raw)),
        },
{
    if status != 0 {
        return match status_error("security_cms_encoder_get_certificate_chain_mode", status, error_text) {
            Ok(error) => Err(error),
            Err(read_error) => Err(read_error),
        };
    }
    CmsCertificateChainMode::from_raw(raw)
}

/// Mirrors digest selectors used by `CMSEncoderSetSignerAlgorithm`.
#[derive(Debug, Clone, Copy, PartialEq, Eq, Hash, Structural)]
pub enum CmsDigestAlgorithm {
    /// SHA-1.
    Sha1,
    /// SHA-256.
    Sha256,
}

/// The name under which the bridge knows a digest algorithm.
pub open spec fn spec_digest_bridge_name(algorithm: CmsDigestAlgorithm) -> Seq<char> {
    match algorithm {
        CmsDigestAlgorithm::Sha1 => "sha1"@,
        CmsDigestAlgorithm::Sha256 => "sha256"@,
    }
}

impl CmsDigestAlgorithm {
    /// The name under which the bridge knows this algorithm.
    pub fn as_bridge_name(self) -> (name: &'static str)
        ensures
            name@ == spec_digest_bridge_name(self),
    {
        match self {
            CmsDigestAlgorithm::Sha1 => "sha1",
            CmsDigestAlgorithm::Sha256 => "sha256",
        }
    }
}

/// The two digest algorithms have distinct bridge names.
pub proof fn lemma_digest_names_distinct(a: CmsDigestAlgorithm, b: CmsDigestAlgorithm)
    ensures
        spec_digest_bridge_name(a) == spec_digest_bridge_name(b) ==> a == b,
{
    reveal_strlit("sha1");
    reveal_strlit("sha256");
    assert(spec_digest_bridge_name(CmsDigestAlgorithm::Sha1).len() != spec_digest_bridge_name(
        CmsDigestAlgorithm::Sha256,
    ).len());
}

/// The status of one signer of a decoded message.
#[derive(Debug, Clone, Copy, PartialEq, Eq, Hash, Structural)]
pub enum CmsSignerStatus {
    /// `kCMSSignerUnsigned`.
    Unsigned,
    /// `kCMSSignerValid`.
    Valid,
    /// `kCMSSignerNeedsDetachedContent`.
    NeedsDetachedContent,
    /// `kCMSSignerInvalidSignature`.
    InvalidSignature,
    /// `kCMSSignerInvalidCert`.
    InvalidCertificate,
    /// `kCMSSignerInvalidIndex`.
    InvalidIndex,
    /// A raw value that names none of the above.
    Unknown(u32),
}

/// The signer status with raw value `raw`.
pub open spec fn spec_signer_status_from_raw(raw: u32) -> CmsSignerStatus {
    if raw == 0 {
        CmsSignerStatus::Unsigned
    } else if raw == 1 {
        CmsSignerStatus::Valid
    } else if raw == 2 {
        CmsSignerStatus::NeedsDetachedContent
    } else if raw == 3 {
        CmsSignerStatus::InvalidSignature
    } else if raw == 4 {
        CmsSignerStatus::InvalidCertificate
    } else if raw == 5 {
        CmsSignerStatus::InvalidIndex
    } else {
        CmsSignerStatus::Unknown(raw)
    }
}

/// The raw value of a signer status.
pub open spec fn spec_signer_status_raw(status: CmsSignerStatus) -> u32 {
    match status {
        CmsSignerStatus::Unsigned => 0,
        CmsSignerStatus::Valid => 1,
        CmsSignerStatus::NeedsDetachedContent => 2,
        CmsSignerStatus::InvalidSignature => 3,
        CmsSignerStatus::InvalidCertificate => 4,
        CmsSignerStatus::InvalidIndex => 5,
        CmsSignerStatus::Unknown(raw) => raw,
    }
}

impl CmsSignerStatus {
    /// The signer status with raw value `raw`; other values are kept as `Unknown`.
    pub fn from_raw(raw: u32) -> (status: Self)
        ensures
            status == spec_signer_status_from_raw(raw),
    {
        match raw {
            0 => CmsSignerStatus::Unsigned,
            1 => CmsSignerStatus::Valid,
            2 => CmsSignerStatus::NeedsDetachedContent,
            3 => CmsSignerStatus::InvalidSignature,
            4 => CmsSignerStatus::InvalidCertificate,
            5 => CmsSignerStatus::InvalidIndex,
            other => CmsSignerStatus::Unknown(other),
        }
    }

    /// The raw value of this status.
    pub fn raw(self) -> (raw: u32)
        ensures
            raw == spec_signer_status_raw(self),
    {
        match self {
            CmsSignerStatus::Unsigned => 0,
            CmsSignerStatus::Valid => 1,
            CmsSignerStatus::NeedsDetachedContent => 2,
            CmsSignerStatus::InvalidSignature => 3,
            CmsSignerStatus::InvalidCertificate => 4,
            CmsSignerStatus::InvalidIndex => 5,
            CmsSignerStatus::Unknown(raw) => raw,
        }
    }
}

/// Every raw value comes back unchanged through its signer status.
pub proof fn lemma_signer_status_raw_round_trip(raw: u32)
    ensures
        spec_signer_status_raw(spec_signer_status_from_raw(raw)) == raw,
{
}

/// Whether, and with what result, the signer's certificate was evaluated.
#[derive(Debug, Clone, Copy, PartialEq, Eq, Hash, Structural)]
pub enum CmsCertificateVerification {
    /// The certificate was not evaluated.
    NotEvaluated,
    /// The certificate was evaluated, with this result code.
    Evaluated(OsStatus),
}

/// What the decoder reports about one signer.
#[derive(Debug)]
#[non_exhaustive]
pub struct CmsSignerStatusReport<T> {
    /// The status of the signature.
    pub signer_status: CmsSignerStatus,
    /// Whether, and with what result, the signer's certificate was evaluated.
    pub certificate_verification: CmsCertificateVerification,
    /// The trust object the decoder built, to evaluate when it did not.
    pub trust: Option<T>,
}

/// The error for a signer-status document that lacks a field it needs.
pub open spec fn signer_status_unexpected() -> SecurityError {
    SecurityError::UnexpectedType {
        operation: "security_cms_decoder_copy_signer_status",
        expected: "signer status JSON object",
    }
}

/// The signer status that the document `value` reports, when it has one.
pub open spec fn reported_signer_status(value: JsonValue) -> Option<CmsSignerStatus> {
    match spec_get(value, "signerStatus"@) {
        Some(JsonValue::Number(n)) => match spec_number_as_u64(n) {
            Some(raw) => if raw <= u32::MAX {
                Some(spec_signer_status_from_raw(raw as u32))
            } else {
                None
            },
            None => None,
        },
        _ => None,
    }
}

/// Whether the document `value` says that the certificate was evaluated, when it says.
pub open spec fn reported_evaluated(value: JsonValue) -> Option<bool> {
    match spec_get(value, "trustEvaluated"@) {
        Some(JsonValue::Bool(b)) => Some(b),
        _ => None,
    }
}

/// The certificate result code that the document `value` reports, when it fits an `OSStatus`.
pub open spec fn reported_result_code(value: JsonValue) -> Option<OsStatus> {
    match spec_get(value, "certVerifyResultCode"@) {
        Some(JsonValue::Number(n)) => match spec_number_as_i64(n) {
            Some(code) => if i32::MIN <= code <= i32::MAX {
                Some(code as i32)
            } else {
                None
            },
            None => None,
        },
        _ => None,
    }
}

impl<T> CmsSignerStatusReport<T> {
    /// Whether the signature is valid and the certificate evaluated cleanly.
    pub fn is_verified(&self) -> (verified: bool)
        ensures
            verified == (self.signer_status == CmsSignerStatus::Valid
                && self.certificate_verification == CmsCertificateVerification::Evaluated(0)),
    {
        match (self.signer_status, self.certificate_verification) {
            (CmsSignerStatus::Valid, CmsCertificateVerification::Evaluated(0)) => true,
            _ => false,
        }
    }

    /// The report that the decoder's signer-status document `value` gives,
    /// with the trust object the decoder built.
    pub fn from_json(value: &JsonValue, trust: Option<T>) -> (result: Result<Self>)
        ensures
            match (reported_signer_status(*value), reported_evaluated(*value)) {
                (Some(status), Some(false)) => result matches Ok(report) && report.signer_status
                    == status && report.certificate_verification
                    == CmsCertificateVerification::NotEvaluated && report.trust == trust,
                (Some(status), Some(true)) => match reported_result_code(*value) {
                    Some(code) => result matches Ok(report) && report.signer_status == status
                        && report.certificate_verification
                        == CmsCertificateVerification::Evaluated(code) && report.trust == trust,
                    None => result == Err::<Self, SecurityError>(signer_status_unexpected()),
                },
                _ => result == Err::<Self, SecurityError>(signer_status_unexpected()),
            },
    {
        let signer_status = match value.get("signerStatus") {
            Some(field) => match field.as_u64() {
                Some(raw) => if raw <= u32::MAX as u64 {
                    CmsSignerStatus::from_raw(raw as u32)
                } else {
                    return Err(signer_status_error());
                },
                None => return Err(signer_status_error()),
            },
            None => return Err(signer_status_error()),
        };
        let evaluated = match value.get("trustEvaluated") {
            Some(field) => match field.as_bool() {
                Some(b) => b,
                None => return Err(signer_status_error()),
            },
            None => return Err(signer_status_error()),
        };
        let certificate_verification = if evaluated {
            match value.get("certVerifyResultCode") {
                Some(field) => match field.as_i64() {
                    Some(code) => if i32::MIN as i64 <= code && code <= i32::MAX as i64 {
                        CmsCertificateVerification::Evaluated(code as i32)
                    } else {
                        return Err(signer_status_error());
                    },
                    None => return Err(signer_status_error()),
                },
                None => return Err(signer_status_error()),
            }
        } else {
            CmsCertificateVerification::NotEvaluated
        };
        Ok(CmsSignerStatusReport { signer_status, certificate_verification, trust })
    }
}

/// The error for a signer-status document that lacks a field it needs.
fn signer_status_error() -> (error: SecurityError)
    ensures
        error == signer_status_unexpected(),
{
    SecurityError::UnexpectedType {
        operation: "security_cms_decoder_copy_signer_status",
        expected: "signer status JSON object",
    }
}

/// The number of signers the decoder reports: a nonzero status is reported
/// first, then a negative count is refused.
pub fn signer_count(status: OsStatus, count: isize, error_text: Result<Option<String>>) -> (result: Result<usize>)
    ensures
        status != 0 ==> match error_text {
            Ok(text) => result matches Err(error) && is_status_error(
                error,
                "security_cms_decoder_get_num_signers",
                status,
                text,
            ),
            Err(read_error) => result == Err::<usize, SecurityError>(read_error),
        },
        status == 0 && count >= 0 ==> result == Ok::<usize, SecurityError>(count as usize),
        status == 0 && count < 0 ==> (result matches Err(SecurityError::Serialization(message))
            && message@ == "negative signer count from bridge"@),
{
    if status != 0 {
        return match status_error("security_cms_decoder_get_num_signers", status, error_text) {
            Ok(error) => Err(error),
            Err(read_error) => Err(read_error),
        };
    }
    if count >= 0 {
        Ok(count as usize)
    } else {
        Err(SecurityError::Serialization("negative signer count from bridge".to_string()))
    }
}

/// Wraps Security.framework CMS decoder state.
#[derive(Debug)]
pub struct CmsDecoder<H> {
    handle: H,
}

impl<H> CmsDecoder<H> {
    /// The bridge handle this value holds.
    pub closed spec fn spec_handle(&self) -> H {
        self.handle
    }

    /// Wraps a handle that the bridge returned.
    pub fn from_handle(handle: H) -> (value: Self)
        ensures
            value.spec_handle() == handle,
    {
        CmsDecoder { handle: handle }
    }

    /// The bridge handle this value holds.
    pub fn handle(&self) -> (handle: &H)
        ensures
            *handle == self.spec_handle(),
    {
        &self.handle
    }
}
/// Wraps Security.framework CMS encoder state.
#[derive(Debug)]
pub struct CmsEncoder<H> {
    handle: H,
}

impl<H> CmsEncoder<H> {
    /// The bridge handle this value holds.
    pub closed spec fn spec_handle(&self) -> H {
        self.handle
    }

    /// Wraps a handle that the bridge returned.
    pub fn from_handle(handle: H) -> (value: Self)
        ensures
            value.spec_handle() == handle,
    {
        CmsEncoder { handle: handle }
    }

    /// The bridge handle this value holds.
    pub fn handle(&self) -> (handle: &H)
        ensures
            *handle == self.spec_handle(),
    {
        &self.handle
    }
}

/// Wraps convenience helpers around Security.framework CMS APIs.
pub struct Cms;

/// Each chain mode is the `CMSCertificateChainMode` constant with its number, and only that number names it: none 0, signer only 1, chain 2, chain with root 3, chain with root or fail 4.
pub proof fn lemma_chain_mode_numbers(mode: CmsCertificateChainMode)
    ensures
        (mode == CmsCertificateChainMode::NoCertificates) == (spec_chain_mode_raw(mode) == 0),
        (mode == CmsCertificateChainMode::SignerOnly) == (spec_chain_mode_raw(mode) == 1),
        (mode == CmsCertificateChainMode::Chain) == (spec_chain_mode_raw(mode) == 2),
        (mode == CmsCertificateChainMode::ChainWithRoot) == (spec_chain_mode_raw(mode) == 3),
        (mode == CmsCertificateChainMode::ChainWithRootOrFail) == (spec_chain_mode_raw(mode) == 4),
{
}

/// Each digest algorithm is sent under its own name.
pub proof fn lemma_digest_names(algorithm: CmsDigestAlgorithm)
    ensures
        algorithm == CmsDigestAlgorithm::Sha1 ==> spec_digest_bridge_name(algorithm) == "sha1"@,
        algorithm == CmsDigestAlgorithm::Sha256 ==> spec_digest_bridge_name(algorithm) == "sha256"@,
{
}

/// A raw signer status names the `CMSSignerStatus` constant with that number:
/// unsigned 0, valid 1, needs detached content 2, invalid signature 3,
/// invalid certificate 4, invalid index 5; every other number is kept as
/// `Unknown`. Each named status has its number as its raw value.
pub proof fn lemma_signer_status_numbers(raw: u32, status: CmsSignerStatus)
    ensures
        (spec_signer_status_from_raw(raw) == CmsSignerStatus::Unsigned) == (raw == 0),
        (spec_signer_status_from_raw(raw) == CmsSignerStatus::Valid) == (raw == 1),
        (spec_signer_status_from_raw(raw) == CmsSignerStatus::NeedsDetachedContent) == (raw == 2),
        (spec_signer_status_from_raw(raw) == CmsSignerStatus::InvalidSignature) == (raw == 3),
        (spec_signer_status_from_raw(raw) == CmsSignerStatus::InvalidCertificate) == (raw == 4),
        (spec_signer_status_from_raw(raw) == CmsSignerStatus::InvalidIndex) == (raw == 5),
        raw > 5 ==> spec_signer_status_from_raw(raw) == CmsSignerStatus::Unknown(raw),
        status == CmsSignerStatus::Unsigned ==> spec_signer_status_raw(status) == 0,
        status == CmsSignerStatus::Valid ==> spec_signer_status_raw(status) == 1,
        status == CmsSignerStatus::NeedsDetachedContent ==> spec_signer_status_raw(status) == 2,
        status == CmsSignerStatus::InvalidSignature ==> spec_signer_status_raw(status) == 3,
        status == CmsSignerStatus::InvalidCertificate ==> spec_signer_status_raw(status) == 4,
        status == CmsSignerStatus::InvalidIndex ==> spec_signer_status_raw(status) == 5,
        status matches CmsSignerStatus::Unknown(r) ==> spec_signer_status_raw(status) == r,
{
}

/// Where the decoder's signer-status document is read from: the raw signer
/// status is the number under "signerStatus", whether the certificate was
/// evaluated the boolean under "trustEvaluated", and the verification result
/// the number under "certVerifyResultCode".
pub proof fn lemma_signer_report_keys(value: JsonValue, raw: u32, evaluated: bool, code: i32)
    ensures
        spec_get(value, "signerStatus"@) == Some(
            JsonValue::Number(JsonNumber::PosInt(raw as u64)),
        ) ==> reported_signer_status(value) == Some(spec_signer_status_from_raw(raw)),
        spec_get(value, "signerStatus"@) is None ==> reported_signer_status(value) is None,
        spec_get(value, "trustEvaluated"@) == Some(JsonValue::Bool(evaluated))
            ==> reported_evaluated(value) == Some(evaluated),
        spec_get(value, "trustEvaluated"@) is None ==> reported_evaluated(value) is None,
        code >= 0 && spec_get(value, "certVerifyResultCode"@) == Some(
            JsonValue::Number(JsonNumber::PosInt(code as u64)),
        ) ==> reported_result_code(value) == Some(code),
        code < 0 && spec_get(value, "certVerifyResultCode"@) == Some(
            JsonValue::Number(JsonNumber::NegInt(code as i64)),
        ) ==> reported_result_code(value) == Some(code),
        spec_get(value, "certVerifyResultCode"@) is None ==> reported_result_code(value) is None,
{
}

} // verus!

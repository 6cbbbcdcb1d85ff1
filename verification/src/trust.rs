//! Trust evaluation: option bits, result types and the decoding of what an
//! evaluation reports.

use vstd::prelude::*;
use vstd::std_specs::ops::BitOrSpecImpl;

use crate::bridge::{is_status_error, status_error};
use crate::error::{OsStatus, Result, SecurityError};
use crate::text::spec_decimal;

verus! {

/// Mirrors `SecTrustOptionFlags`.
#[derive(Debug, Clone, Copy, PartialEq, Eq, Hash, Structural)]
pub struct TrustOptions(u32);

impl View for TrustOptions {
    type V = u32;

    closed spec fn view(&self) -> u32 {
        self.0
    }
}

impl TrustOptions {
    /// The bits of all named flags together.
    pub open spec fn all_bits() -> u32 {
        0x7f
    }

    /// The set that `from_bits` gives for `bits`: the bits themselves when
    /// they name only known flags, nothing otherwise.
    pub closed spec fn spec_from_bits(bits: u32) -> Option<Self> {
        if bits & Self::all_bits() == bits {
            Some(TrustOptions(bits))
        } else {
            None
        }
    }

    /// `kSecTrustOptionAllowExpired`.
    pub fn allow_expired() -> (flags: Self)
        ensures
            flags@ == 0x1,
    {
        TrustOptions(0x1)
    }

    /// `kSecTrustOptionLeafIsCA`.
    pub fn leaf_is_ca() -> (flags: Self)
        ensures
            flags@ == 0x2,
    {
        TrustOptions(0x2)
    }

    /// `kSecTrustOptionFetchIssuerFromNet`.
    pub fn fetch_issuer_from_net() -> (flags: Self)
        ensures
            flags@ == 0x4,
    {
        TrustOptions(0x4)
    }

    /// `kSecTrustOptionAllowExpiredRoot`.
    pub fn allow_expired_root() -> (flags: Self)
        ensures
            flags@ == 0x8,
    {
        TrustOptions(0x8)
    }

    /// `kSecTrustOptionRequireRevPerCert`.
    pub fn require_revocation_per_cert() -> (flags: Self)
        ensures
            flags@ == 0x10,
    {
        TrustOptions(0x10)
    }

    /// `kSecTrustOptionUseTrustSettings`.
    pub fn use_trust_settings() -> (flags: Self)
        ensures
            flags@ == 0x20,
    {
        TrustOptions(0x20)
    }

    /// `kSecTrustOptionImplicitAnchors`.
    pub fn implicit_anchors() -> (flags: Self)
        ensures
            flags@ == 0x40,
    {
        TrustOptions(0x40)
    }

    /// The empty set.
    pub fn empty() -> (flags: Self)
        ensures
            flags@ == 0,
    {
        TrustOptions(0)
    }

    /// The set of every named flag.
    pub fn all() -> (flags: Self)
        ensures
            flags@ == Self::all_bits(),
    {
        TrustOptions(0x7f)
    }

    /// The raw bits of the set.
    pub fn bits(&self) -> (bits: u32)
        ensures
            bits == self@,
    {
        self.0
    }

    /// The set with exactly `bits`, or `None` when `bits` holds a bit that
    /// names no flag.
    pub fn from_bits(bits: u32) -> (flags: Option<Self>)
        ensures
            flags == Self::spec_from_bits(bits),
            flags is Some <==> bits & Self::all_bits() == bits,
            flags matches Some(f) ==> f@ == bits,
    {
        if bits & 0x7f == bits {
            Some(TrustOptions(bits))
        } else {
            None
        }
    }

    /// The set with the named flags among `bits`; other bits are dropped.
    pub fn from_bits_truncate(bits: u32) -> (flags: Self)
        ensures
            flags@ == bits & Self::all_bits(),
    {
        TrustOptions(bits & 0x7f)
    }

    /// The set with exactly `bits`, named or not.
    pub fn from_bits_retain(bits: u32) -> (flags: Self)
        ensures
            flags@ == bits,
    {
        TrustOptions(bits)
    }

    /// Whether no bit is set.
    pub fn is_empty(&self) -> (empty: bool)
        ensures
            empty == (self@ == 0),
    {
        self.0 == 0
    }

    /// Whether every named flag is set.
    pub fn is_all(&self) -> (all: bool)
        ensures
            all == (Self::all_bits() | self@ == self@),
    {
        0x7f | self.0 == self.0
    }

    /// Whether the two sets share a bit.
    pub fn intersects(&self, other: Self) -> (shared: bool)
        ensures
            shared == (self@ & other@ != 0),
    {
        self.0 & other.0 != 0
    }

    /// Whether every bit of `other` is set here.
    pub fn contains(&self, other: Self) -> (contained: bool)
        ensures
            contained == (self@ & other@ == other@),
    {
        self.0 & other.0 == other.0
    }

    /// Sets the bits of `other`.
    pub fn insert(&mut self, other: Self)
        ensures
            final(self)@ == old(self)@ | other@,
    {
        self.0 = self.0 | other.0;
    }

    /// Clears the bits of `other`.
    pub fn remove(&mut self, other: Self)
        ensures
            final(self)@ == old(self)@ & !other@,
    {
        self.0 = self.0 & !other.0;
    }

    /// Flips the bits of `other`.
    pub fn toggle(&mut self, other: Self)
        ensures
            final(self)@ == old(self)@ ^ other@,
    {
        self.0 = self.0 ^ other.0;
    }

    /// Sets the bits of `other` when `value` holds, clears them otherwise.
    pub fn set(&mut self, other: Self, value: bool)
        ensures
            final(self)@ == if value {
                old(self)@ | other@
            } else {
                old(self)@ & !other@
            },
    {
        if value {
            self.insert(other);
        } else {
            self.remove(other);
        }
    }

    /// The bits set in either set.
    pub fn union(self, other: Self) -> (flags: Self)
        ensures
            flags@ == self@ | other@,
    {
        TrustOptions(self.0 | other.0)
    }

    /// The bits set in both sets.
    pub fn intersection(self, other: Self) -> (flags: Self)
        ensures
            flags@ == self@ & other@,
    {
        TrustOptions(self.0 & other.0)
    }

    /// The bits set here and not in `other`.
    pub fn difference(self, other: Self) -> (flags: Self)
        ensures
            flags@ == self@ & !other@,
    {
        TrustOptions(self.0 & !other.0)
    }

    /// The bits set in exactly one of the sets.
    pub fn symmetric_difference(self, other: Self) -> (flags: Self)
        ensures
            flags@ == self@ ^ other@,
    {
        TrustOptions(self.0 ^ other.0)
    }

    /// The named flags that are not set here.
    pub fn complement(self) -> (flags: Self)
        ensures
            flags@ == !self@ & Self::all_bits(),
    {
        TrustOptions(!self.0 & 0x7f)
    }
}

impl core::ops::BitOr for TrustOptions {
    type Output = Self;

    fn bitor(self, other: Self) -> (flags: Self) {
        TrustOptions(self.0 | other.0)
    }
}

impl BitOrSpecImpl for TrustOptions {
    open spec fn obeys_bitor_spec() -> bool {
        true
    }

    open spec fn bitor_req(self, other: Self) -> bool {
        true
    }

    closed spec fn bitor_spec(self, other: Self) -> Self {
        TrustOptions(self.0 | other.0)
    }
}

/// A set of named flags comes back unchanged through its bits.
pub proof fn lemma_trust_options_bits_round_trip(flags: TrustOptions)
    requires
        flags@ & TrustOptions::all_bits() == flags@,
    ensures
        TrustOptions::spec_from_bits(flags@) == Some(flags),
{
}

/// A union holds every bit of both of its operands.
pub proof fn lemma_trust_options_union_contains(a: TrustOptions, b: TrustOptions)
    ensures
        (a@ | b@) & a@ == a@,
        (a@ | b@) & b@ == b@,
{
    crate::bitset::lemma_u32_union_contains(a@, b@);
}

/// Removing a set leaves none of its bits.
pub proof fn lemma_trust_options_remove_clears(a: TrustOptions, b: TrustOptions)
    ensures
        (a@ & !b@) & b@ == 0,
{
    crate::bitset::lemma_u32_remove_clears(a@, b@);
}

/// Mirrors `SecTrustResultType`.
#[derive(Debug, Clone, Copy, PartialEq, Eq, Hash, Structural)]
pub enum TrustResultType {
    /// `kSecTrustResultInvalid`.
    Invalid,
    /// `kSecTrustResultProceed`.
    Proceed,
    /// `kSecTrustResultConfirm`.
    Confirm,
    /// `kSecTrustResultDeny`.
    Deny,
    /// `kSecTrustResultUnspecified`.
    Unspecified,
    /// `kSecTrustResultRecoverableTrustFailure`.
    RecoverableTrustFailure,
    /// `kSecTrustResultFatalTrustFailure`.
    FatalTrustFailure,
    /// `kSecTrustResultOtherError`.
    OtherError,
}

/// The raw `SecTrustResultType` value of a result type.
pub open spec fn spec_trust_result_raw(result: TrustResultType) -> u32 {
    match result {
        TrustResultType::Invalid => 0,
        TrustResultType::Proceed => 1,
        TrustResultType::Confirm => 2,
        TrustResultType::Deny => 3,
        TrustResultType::Unspecified => 4,
        TrustResultType::RecoverableTrustFailure => 5,
        TrustResultType::FatalTrustFailure => 6,
        TrustResultType::OtherError => 7,
    }
}

/// The text of the error for a raw value that names no result type.
pub open spec fn unknown_trust_result_text(raw: u32) -> Seq<char> {
    "unexpected trust result type: "@ + spec_decimal(raw as nat)
}

impl TrustResultType {
    /// The raw `SecTrustResultType` value.
    pub fn raw(self) -> (raw: u32)
        ensures
            raw == spec_trust_result_raw(self),
    {
        match self {
            TrustResultType::Invalid => 0,
            TrustResultType::Proceed => 1,
            TrustResultType::Confirm => 2,
            TrustResultType::Deny => 3,
            TrustResultType::Unspecified => 4,
            TrustResultType::RecoverableTrustFailure => 5,
            TrustResultType::FatalTrustFailure => 6,
            TrustResultType::OtherError => 7,
        }
    }

    /// The result type with the raw value `raw`; values above 7 are refused.
    pub fn from_raw(raw: u32) -> (result: Result<Self>)
        ensures
            match result {
                Ok(value) => raw <= 7 && spec_trust_result_raw(value) == raw,
                Err(error) => raw > 7 && (error matches SecurityError::InvalidArgument(message)
                    && message@ == unknown_trust_result_text(raw)),
            },
    {
        match raw {
            0 => Ok(TrustResultType::Invalid),
            1 => Ok(TrustResultType::Proceed),
            2 => Ok(TrustResultType::Confirm),
            3 => Ok(TrustResultType::Deny),
            4 => Ok(TrustResultType::Unspecified),
            5 => Ok(TrustResultType::RecoverableTrustFailure),
            6 => Ok(TrustResultType::FatalTrustFailure),
            7 => Ok(TrustResultType::OtherError),
            _ => Err(
                SecurityError::InvalidArgument(
                    crate::text::with_decimal("unexpected trust result type: ", raw as u64),
                ),
            ),
        }
    }
}

/// Each result type comes back unchanged through its raw value, and distinct
/// result types have distinct raw values.
pub proof fn lemma_trust_result_raw_round_trip(a: TrustResultType, b: TrustResultType)
    ensures
        spec_trust_result_raw(a) <= 7,
        spec_trust_result_raw(a) == spec_trust_result_raw(b) ==> a == b,
{
}

/// Wraps `SecTrustRef`.
#[derive(Debug)]
pub struct Trust<H> {
    handle: H,
}

impl<H> Trust<H> {
    /// The bridge handle this value holds.
    pub closed spec fn spec_handle(&self) -> H {
        self.handle
    }

    /// Wraps a handle that the bridge returned.
    pub fn from_handle(handle: H) -> (value: Self)
        ensures
            value.spec_handle() == handle,
    {
        Trust { handle: handle }
    }

    /// The bridge handle this value holds.
    pub fn handle(&self) -> (handle: &H)
        ensures
            *handle == self.spec_handle(),
    {
        &self.handle
    }
}

/// The text of a failed evaluation: the bridge's own reason when it gave one.
pub open spec fn trust_failure_text(text: Option<String>) -> Seq<char> {
    match text {
        Some(message) => message@,
        None => "trust evaluation failed"@,
    }
}

/// The outcome of an evaluation: `Ok(())` when the chain was trusted,
/// otherwise `TrustEvaluationFailed` with the reason that reading the bridge's
/// error object gave.
pub fn evaluation_outcome(trusted: bool, error_text: Result<Option<String>>) -> (result: Result<()>)
    ensures
        trusted ==> result == Ok::<(), SecurityError>(()),
        !trusted ==> match error_text {
            Ok(text) => result matches Err(SecurityError::TrustEvaluationFailed(message))
                && message@ == trust_failure_text(text),
            Err(read_error) => result == Err::<(), SecurityError>(read_error),
        },
{
    if trusted {
        Ok(())
    } else {
        match error_text {
            Ok(Some(message)) => Err(SecurityError::TrustEvaluationFailed(message)),
            Ok(None) => Err(SecurityError::TrustEvaluationFailed("trust evaluation failed".to_string())),
            Err(read_error) => Err(read_error),
        }
    }
}

/// The outcome of an asynchronous evaluation: a nonzero status is reported
/// first, then the evaluation as `evaluation_outcome` decides.
pub fn async_evaluation_outcome(
    status: OsStatus,
    trusted: bool,
    error_text: Result<Option<String>>,
) -> (result: Result<()>)
    ensures
        status != 0 ==> match error_text {
            Ok(text) => result matches Err(error) && is_status_error(
                error,
                "security_trust_evaluate_async",
                status,
                text,
            ),
            Err(read_error) => result == Err::<(), SecurityError>(read_error),
        },
        status == 0 && trusted ==> result == Ok::<(), SecurityError>(()),
        status == 0 && !trusted ==> match error_text {
            Ok(text) => result matches Err(SecurityError::TrustEvaluationFailed(message))
                && message@ == trust_failure_text(text),
            Err(read_error) => result == Err::<(), SecurityError>(read_error),
        },
{
    if status != 0 {
        return match status_error("security_trust_evaluate_async", status, error_text) {
            Ok(error) => Err(error),
            Err(read_error) => Err(read_error),
        };
    }
    evaluation_outcome(trusted, error_text)
}

/// The result type a finished evaluation reports: a nonzero status is
/// reported first, then the raw value is decoded.
pub fn trust_result_outcome(
    status: OsStatus,
    raw: u32,
    error_text: Result<Option<String>>,
) -> (result: Result<TrustResultType>)
    ensures
        status != 0 ==> match error_text {
            Ok(text) => result matches Err(error) && is_status_error(
                error,
                "security_trust_get_trust_result",
                status,
                text,
            ),
            Err(read_error) => result == Err::<TrustResultType, SecurityError>(read_error),
        },
        status == 0 ==> match result {
            Ok(value) => raw <= 7 && spec_trust_result_raw(value) == raw,
            Err(error) => raw > 7 && (error matches SecurityError::InvalidArgument(message)
                && message@ == unknown_trust_result_text(raw)),
        },
{
    if status != 0 {
        return match status_error("security_trust_get_trust_result", status, error_text) {
            Ok(error) => Err(error),
            Err(read_error) => Err(read_error),
        };
    }
    TrustResultType::from_raw(raw)
}

/// Whether the exceptions were accepted: an error object from the bridge is
/// reported as a failure with status -1.
pub fn exceptions_outcome(accepted: bool, error_text: Option<Result<Option<String>>>) -> (result:
    Result<bool>)
    ensures
        match error_text {
            None => result == Ok::<bool, SecurityError>(accepted),
            Some(Ok(text)) => result matches Err(error) && is_status_error(
                error,
                "security_trust_set_exceptions",
                -1i32,
                text,
            ),
            Some(Err(read_error)) => result == Err::<bool, SecurityError>(read_error),
        },
{
    match error_text {
        None => Ok(accepted),
        Some(text) => match status_error("security_trust_set_exceptions", -1, text) {
            Ok(error) => Err(error),
            Err(read_error) => Err(read_error),
        },
    }
}

/// Each result type is the `SecTrustResultType` constant with its number, and only that number names it: Invalid 0, Proceed 1, Confirm 2, Deny 3, Unspecified 4, RecoverableTrustFailure 5, FatalTrustFailure 6, OtherError 7. So `from_raw(n)` gives the constant numbered `n`.
pub proof fn lemma_trust_result_numbers(result: TrustResultType)
    ensures
        (result == TrustResultType::Invalid) == (spec_trust_result_raw(result) == 0),
        (result == TrustResultType::Proceed) == (spec_trust_result_raw(result) == 1),
        (result == TrustResultType::Confirm) == (spec_trust_result_raw(result) == 2),
        (result == TrustResultType::Deny) == (spec_trust_result_raw(result) == 3),
        (result == TrustResultType::Unspecified) == (spec_trust_result_raw(result) == 4),
        (result == TrustResultType::RecoverableTrustFailure) == (spec_trust_result_raw(result) == 5),
        (result == TrustResultType::FatalTrustFailure) == (spec_trust_result_raw(result) == 6),
        (result == TrustResultType::OtherError) == (spec_trust_result_raw(result) == 7),
{
}

} // verus!

//! Authorization Services: option bits, and the values that an
//! `AuthorizationRef` holds.

use vstd::prelude::*;
use vstd::std_specs::ops::BitOrSpecImpl;

use crate::bridge::{handle_outcome, required_handle, CreateReply};
use crate::error::Result;

verus! {

/// Mirrors Authorization Services option bits used with `AuthorizationCreate`.
#[derive(Debug, Clone, Copy, PartialEq, Eq, Hash, Structural)]
pub struct AuthorizationOptions(u32);

impl View for AuthorizationOptions {
    type V = u32;

    closed spec fn view(&self) -> u32 {
        self.0
    }
}

impl AuthorizationOptions {
    /// The bits of all named flags together.
    pub open spec fn all_bits() -> u32 {
        0x10021f
    }

    /// The set that `from_bits` gives for `bits`: the bits themselves when
    /// they name only known flags, nothing otherwise.
    pub closed spec fn spec_from_bits(bits: u32) -> Option<Self> {
        if bits & Self::all_bits() == bits {
            Some(AuthorizationOptions(bits))
        } else {
            None
        }
    }

    /// No option: the default behaviour.
    pub fn defaults() -> (flags: Self)
        ensures
            flags@ == 0x0,
    {
        AuthorizationOptions(0x0)
    }

    /// `kAuthorizationFlagInteractionAllowed`: the user may be asked.
    pub fn interaction_allowed() -> (flags: Self)
        ensures
            flags@ == 0x1,
    {
        AuthorizationOptions(0x1)
    }

    /// `kAuthorizationFlagExtendRights`: rights may be granted.
    pub fn extend_rights() -> (flags: Self)
        ensures
            flags@ == 0x2,
    {
        AuthorizationOptions(0x2)
    }

    /// `kAuthorizationFlagPartialRights`: some of the rights may be granted.
    pub fn partial_rights() -> (flags: Self)
        ensures
            flags@ == 0x4,
    {
        AuthorizationOptions(0x4)
    }

    /// `kAuthorizationFlagDestroyRights`: granted rights are revoked.
    pub fn destroy_rights() -> (flags: Self)
        ensures
            flags@ == 0x8,
    {
        AuthorizationOptions(0x8)
    }

    /// `kAuthorizationFlagPreAuthorize`: rights are authorized ahead of use.
    pub fn preauthorize() -> (flags: Self)
        ensures
            flags@ == 0x10,
    {
        AuthorizationOptions(0x10)
    }

    /// `kAuthorizationFlagSkipInternalAuth`.
    pub fn skip_internal_auth() -> (flags: Self)
        ensures
            flags@ == 0x200,
    {
        AuthorizationOptions(0x200)
    }

    /// `kAuthorizationFlagNoData`: no authentication data is returned.
    pub fn no_data() -> (flags: Self)
        ensures
            flags@ == 0x100000,
    {
        AuthorizationOptions(0x100000)
    }

    /// The empty set.
    pub fn empty() -> (flags: Self)
        ensures
            flags@ == 0,
    {
        AuthorizationOptions(0)
    }

    /// The set of every named flag.
    pub fn all() -> (flags: Self)
        ensures
            flags@ == Self::all_bits(),
    {
        AuthorizationOptions(0x10021f)
    }

    /// The raw bits of the set.
    pub fn bits(&self) -> (bits: u32)
        ensures
            bits == self@,
    {
        self.0
    }

    /// The set with exactly `bits`, or `None` when `bits` holds a bit that
    /// names no flag.
    pub fn from_bits(bits: u32) -> (flags: Option<Self>)
        ensures
            flags == Self::spec_from_bits(bits),
            flags is Some <==> bits & Self::all_bits() == bits,
            flags matches Some(f) ==> f@ == bits,
    {
        if bits & 0x10021f == bits {
            Some(AuthorizationOptions(bits))
        } else {
            None
        }
    }

    /// The set with the named flags among `bits`; other bits are dropped.
    pub fn from_bits_truncate(bits: u32) -> (flags: Self)
        ensures
            flags@ == bits & Self::all_bits(),
    {
        AuthorizationOptions(bits & 0x10021f)
    }

    /// The set with exactly `bits`, named or not.
    pub fn from_bits_retain(bits: u32) -> (flags: Self)
        ensures
            flags@ == bits,
    {
        AuthorizationOptions(bits)
    }

    /// Whether no bit is set.
    pub fn is_empty(&self) -> (empty: bool)
        ensures
            empty == (self@ == 0),
    {
        self.0 == 0
    }

    /// Whether every named flag is set.
    pub fn is_all(&self) -> (all: bool)
        ensures
            all == (Self::all_bits() | self@ == self@),
    {
        0x10021f | self.0 == self.0
    }

    /// Whether the two sets share a bit.
    pub fn intersects(&self, other: Self) -> (shared: bool)
        ensures
            shared == (self@ & other@ != 0),
    {
        self.0 & other.0 != 0
    }

    /// Whether every bit of `other` is set here.
    pub fn contains(&self, other: Self) -> (contained: bool)
        ensures
            contained == (self@ & other@ == other@),
    {
        self.0 & other.0 == other.0
    }

    /// Sets the bits of `other`.
    pub fn insert(&mut self, other: Self)
        ensures
            final(self)@ == old(self)@ | other@,
    {
        self.0 = self.0 | other.0;
    }

    /// Clears the bits of `other`.
    pub fn remove(&mut self, other: Self)
        ensures
            final(self)@ == old(self)@ & !other@,
    {
        self.0 = self.0 & !other.0;
    }

    /// Flips the bits of `other`.
    pub fn toggle(&mut self, other: Self)
        ensures
            final(self)@ == old(self)@ ^ other@,
    {
        self.0 = self.0 ^ other.0;
    }

    /// Sets the bits of `other` when `value` holds, clears them otherwise.
    pub fn set(&mut self, other: Self, value: bool)
        ensures
            final(self)@ == if value {
                old(self)@ | other@
            } else {
                old(self)@ & !other@
            },
    {
        if value {
            self.insert(other);
        } else {
            self.remove(other);
        }
    }

    /// The bits set in either set.
    pub fn union(self, other: Self) -> (flags: Self)
        ensures
            flags@ == self@ | other@,
    {
        AuthorizationOptions(self.0 | other.0)
    }

    /// The bits set in both sets.
    pub fn intersection(self, other: Self) -> (flags: Self)
        ensures
            flags@ == self@ & other@,
    {
        AuthorizationOptions(self.0 & other.0)
    }

    /// The bits set here and not in `other`.
    pub fn difference(self, other: Self) -> (flags: Self)
        ensures
            flags@ == self@ & !other@,
    {
        AuthorizationOptions(self.0 & !other.0)
    }

    /// The bits set in exactly one of the sets.
    pub fn symmetric_difference(self, other: Self) -> (flags: Self)
        ensures
            flags@ == self@ ^ other@,
    {
        AuthorizationOptions(self.0 ^ other.0)
    }

    /// The named flags that are not set here.
    pub fn complement(self) -> (flags: Self)
        ensures
            flags@ == !self@ & Self::all_bits(),
    {
        AuthorizationOptions(!self.0 & 0x10021f)
    }
}

impl core::ops::BitOr for AuthorizationOptions {
    type Output = Self;

    fn bitor(self, other: Self) -> (flags: Self) {
        AuthorizationOptions(self.0 | other.0)
    }
}

impl BitOrSpecImpl for AuthorizationOptions {
    open spec fn obeys_bitor_spec() -> bool {
        true
    }

    open spec fn bitor_req(self, other: Self) -> bool {
        true
    }

    closed spec fn bitor_spec(self, other: Self) -> Self {
        AuthorizationOptions(self.0 | other.0)
    }
}

/// A set of named flags comes back unchanged through its bits.
pub proof fn lemma_authorization_options_bits_round_trip(flags: AuthorizationOptions)
    requires
        flags@ & AuthorizationOptions::all_bits() == flags@,
    ensures
        AuthorizationOptions::spec_from_bits(flags@) == Some(flags),
{
}

/// A union holds every bit of both of its operands.
pub proof fn lemma_authorization_options_union_contains(a: AuthorizationOptions, b: AuthorizationOptions)
    ensures
        (a@ | b@) & a@ == a@,
        (a@ | b@) & b@ == b@,
{
    crate::bitset::lemma_u32_union_contains(a@, b@);
}

/// Removing a set leaves none of its bits.
pub proof fn lemma_authorization_options_remove_clears(a: AuthorizationOptions, b: AuthorizationOptions)
    ensures
        (a@ & !b@) & b@ == 0,
{
    crate::bitset::lemma_u32_remove_clears(a@, b@);
}

/// The bridge operation that creates an authorization.
pub const CREATE_AUTHORIZATION: &'static str = "security_authorization_create";

/// Wraps `AuthorizationRef`.
#[derive(Debug)]
pub struct Authorization<H> {
    handle: H,
}

/// The handle an authorization result holds, or its error.
pub open spec fn authorization_handle<H>(result: Result<Authorization<H>>) -> Result<H> {
    match result {
        Ok(authorization) => Ok(authorization.spec_handle()),
        Err(error) => Err(error),
    }
}

impl<H> Authorization<H> {
    /// The bridge handle this value holds.
    pub closed spec fn spec_handle(&self) -> H {
        self.handle
    }

    /// Wraps a handle that the bridge returned.
    pub fn from_handle(handle: H) -> (value: Self)
        ensures
            value.spec_handle() == handle,
    {
        Authorization { handle }
    }

    /// The bridge handle this value holds.
    pub fn handle(&self) -> (handle: &H)
        ensures
            *handle == self.spec_handle(),
    {
        &self.handle
    }

    /// An authorization with the default options, made by the bridge call
    /// `create`, which is handed the option bits.
    pub fn new<F>(create: F) -> (result: Result<Self>)
        where
            F: FnOnce(u32) -> CreateReply<H>,
        requires
            create.requires((0u32,)),
        ensures
            exists|reply: CreateReply<H>|
                create.ensures((0u32,), reply) && handle_outcome(
                    authorization_handle(result),
                    CREATE_AUTHORIZATION,
                    reply.0,
                    reply.1,
                    reply.2,
                ),
    {
        Self::with_options(AuthorizationOptions::defaults(), create)
    }

    /// An authorization with `options`, made by the bridge call `create`,
    /// which is handed the option bits.
    pub fn with_options<F>(options: AuthorizationOptions, create: F) -> (result: Result<Self>)
        where
            F: FnOnce(u32) -> CreateReply<H>,
        requires
            create.requires((options@,)),
        ensures
            exists|reply: CreateReply<H>|
                create.ensures((options@,), reply) && handle_outcome(
                    authorization_handle(result),
                    CREATE_AUTHORIZATION,
                    reply.0,
                    reply.1,
                    reply.2,
                ),
    {
        let (handle, status, error_text) = create(options.bits());
        match required_handle(CREATE_AUTHORIZATION, handle, status, error_text) {
            Ok(handle) => Ok(Authorization { handle }),
            Err(error) => Err(error),
        }
    }
}

} // verus!

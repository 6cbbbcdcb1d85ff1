//! Key agreement: the public and private `SecKeyRef` handles it works on,
//! and the checked arguments of a shared-secret computation.

use vstd::prelude::*;

use crate::bridge::len_to_isize;
use crate::error::{Result, SecurityError};

verus! {

/// Wraps a key-agreement public `SecKeyRef`.
#[derive(Debug)]
pub struct AgreementPublicKey<H> {
    handle: H,
}

impl<H> AgreementPublicKey<H> {
    /// The bridge handle this value holds.
    pub closed spec fn spec_handle(&self) -> H {
        self.handle
    }

    /// Wraps a handle that the bridge returned.
    pub fn from_handle(handle: H) -> (value: Self)
        ensures
            value.spec_handle() == handle,
    {
        AgreementPublicKey { handle: handle }
    }

    /// The bridge handle this value holds.
    pub fn handle(&self) -> (handle: &H)
        ensures
            *handle == self.spec_handle(),
    {
        &self.handle
    }
}

/// Wraps a key-agreement private `SecKeyRef`.
#[derive(Debug)]
pub struct AgreementPrivateKey<H> {
    handle: H,
}

impl<H> AgreementPrivateKey<H> {
    /// The bridge handle this value holds.
    pub closed spec fn spec_handle(&self) -> H {
        self.handle
    }

    /// Wraps a handle that the bridge returned.
    pub fn from_handle(handle: H) -> (value: Self)
        ensures
            value.spec_handle() == handle,
    {
        AgreementPrivateKey { handle: handle }
    }

    /// The bridge handle this value holds.
    pub fn handle(&self) -> (handle: &H)
        ensures
            *handle == self.spec_handle(),
    {
        &self.handle
    }
}

/// The sizes a shared-secret computation hands to the bridge: the requested
/// size and the length of the shared info, each as the bridge's signed size.
pub fn shared_secret_sizes(requested_size: usize, shared_info_length: usize) -> (result: Result<
    (isize, isize),
>)
    ensures
        requested_size <= isize::MAX && shared_info_length <= isize::MAX ==> result == Ok::<
            (isize, isize),
            SecurityError,
        >((requested_size as isize, shared_info_length as isize)),
        requested_size > isize::MAX || shared_info_length > isize::MAX ==> (result matches Err(
            SecurityError::InvalidArgument(message),
        ) && message@ == "input exceeds bridge size limits"@),
{
    let requested = len_to_isize(requested_size)?;
    let shared_info = len_to_isize(shared_info_length)?;
    Ok((requested, shared_info))
}

} // verus!

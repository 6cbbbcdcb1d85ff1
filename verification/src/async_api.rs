//! The decisions of the callback-based asynchronous APIs: how a start call's
//! status, a completion's payload and a cancelled completion become results.

use vstd::prelude::*;

use crate::authorization::Authorization;
use crate::bridge::{is_status_error, status_error};
use crate::error::{OsStatus, Result, SecurityError};
use crate::trust::Trust;

verus! {

/// The result a completion delivered: the payload's own result, or a
/// `Serialization` error carrying the text with which the completion was
/// abandoned.
pub fn flatten_async_result<T>(result: std::result::Result<Result<T>, String>) -> (flat: Result<T>)
    ensures
        match result {
            Ok(inner) => flat == inner,
            Err(message) => flat matches Err(SecurityError::Serialization(text)) && text@
                == message@,
        },
{
    match result {
        Ok(inner) => inner,
        Err(message) => Err(SecurityError::Serialization(message)),
    }
}

/// The error for a failed status; when the bridge's error text cannot be
/// read, the error of that reading.
pub fn bridge_status_error(
    operation: &'static str,
    status: OsStatus,
    error_text: Result<Option<String>>,
) -> (error: SecurityError)
    ensures
        match error_text {
            Ok(text) => is_status_error(error, operation, status, text),
            Err(read_error) => error == read_error,
        },
{
    match status_error(operation, status, error_text) {
        Ok(error) => error,
        Err(error) => error,
    }
}

/// The bridge operation that starts an asynchronous rights request.
pub const COPY_RIGHTS_ASYNC: &'static str = "security_authorization_copy_rights_async_start";

/// The text of the error for a granted request that delivered no rights.
pub open spec fn no_rights_text() -> Seq<char> {
    "security_authorization_copy_rights_async_start returned no authorization rights"@
}

/// The outcome of an asynchronous rights request: for a zero status, the
/// rights document read from the reply (refused when there is none);
/// otherwise the status's error.
pub fn rights_outcome<V>(
    status: OsStatus,
    rights: Result<Option<V>>,
    error_text: Result<Option<String>>,
) -> (result: Result<V>)
    ensures
        status == 0 ==> match rights {
            Ok(Some(value)) => result == Ok::<V, SecurityError>(value),
            Ok(None) => result matches Err(SecurityError::InvalidArgument(message)) && message@
                == no_rights_text(),
            Err(read_error) => result == Err::<V, SecurityError>(read_error),
        },
        status != 0 ==> match error_text {
            Ok(text) => result matches Err(error) && is_status_error(
                error,
                COPY_RIGHTS_ASYNC,
                status,
                text,
            ),
            Err(read_error) => result == Err::<V, SecurityError>(read_error),
        },
{
    if status == 0 {
        match rights {
            Ok(Some(value)) => Ok(value),
            Ok(None) => Err(
                SecurityError::InvalidArgument(
                    "security_authorization_copy_rights_async_start returned no authorization rights".to_string(),
                ),
            ),
            Err(read_error) => Err(read_error),
        }
    } else {
        Err(bridge_status_error(COPY_RIGHTS_ASYNC, status, error_text))
    }
}

/// Borrowed async wrapper for `SecTrustRef` evaluation.
#[derive(Debug, Clone, Copy)]
pub struct AsyncTrust<'a, H> {
    trust: &'a Trust<H>,
}

impl<'a, H> AsyncTrust<'a, H> {
    /// The trust object this wrapper evaluates.
    pub closed spec fn spec_trust(&self) -> &'a Trust<H> {
        self.trust
    }

    /// A borrowed async wrapper around `trust`.
    pub fn new(trust: &'a Trust<H>) -> (wrapper: Self)
        ensures
            wrapper.spec_trust() == trust,
    {
        AsyncTrust { trust }
    }

    /// The trust object this wrapper evaluates.
    pub fn trust(&self) -> (trust: &'a Trust<H>)
        ensures
            trust == self.spec_trust(),
    {
        self.trust
    }
}

/// Borrowed async wrapper for `AuthorizationRef` rights requests.
#[derive(Debug, Clone, Copy)]
pub struct AsyncAuthorization<'a, H> {
    authorization: &'a Authorization<H>,
}

impl<'a, H> AsyncAuthorization<'a, H> {
    /// The authorization this wrapper requests rights of.
    pub closed spec fn spec_authorization(&self) -> &'a Authorization<H> {
        self.authorization
    }

    /// A borrowed async wrapper around `authorization`.
    pub fn new(authorization: &'a Authorization<H>) -> (wrapper: Self)
        ensures
            wrapper.spec_authorization() == authorization,
    {
        AsyncAuthorization { authorization }
    }

    /// The authorization this wrapper requests rights of.
    pub fn authorization(&self) -> (authorization: &'a Authorization<H>)
        ensures
            authorization == self.spec_authorization(),
    {
        self.authorization
    }
}

} // verus!

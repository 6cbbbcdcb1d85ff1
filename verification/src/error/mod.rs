//! Errors returned by the Security.framework bindings.

use vstd::prelude::*;

use crate::text::{push_signed_decimal, spec_signed_decimal};

pub mod status;

verus! {

/// Convenient result alias used throughout this crate.
pub type Result<T, E = SecurityError> = std::result::Result<T, E>;

/// Raw `OSStatus` code returned by Security.framework.
pub type OsStatus = i32;

/// Structured `OSStatus` error returned by `Security.framework`.
#[derive(Debug, Clone, PartialEq, Eq)]
pub struct StatusError {
    /// API name that returned the status code.
    pub operation: &'static str,
    /// Raw `OSStatus` numeric code.
    pub status: OsStatus,
    /// Human-readable description when available.
    pub message: String,
}

/// Top-level error type returned by this crate.
#[derive(Debug, Clone, PartialEq, Eq)]
#[non_exhaustive]
pub enum SecurityError {
    /// Invalid input crossed the FFI boundary.
    InvalidArgument(String),
    /// A requested keychain item was missing.
    ItemNotFound(String),
    /// A duplicate keychain item already existed.
    DuplicateItem(String),
    /// Authentication UI was suppressed or otherwise unavailable.
    InteractionNotAllowed(String),
    /// Trust evaluation failed and Security.framework provided a reason.
    TrustEvaluationFailed(String),
    /// Security.framework returned an unexpected Core Foundation type.
    UnexpectedType {
        /// API name being decoded.
        operation: &'static str,
        /// Expected Core Foundation family.
        expected: &'static str,
    },
    /// JSON serialization or deserialization failed.
    Serialization(String),
    /// A Core Foundation creation call returned a null pointer.
    CoreFoundation(CFError),
    /// Security.framework returned an unexpected `OSStatus`.
    Status(StatusError),
    /// The operation is not available for this value or on this system.
    Unsupported(String),
}

/// A Core Foundation creation call that returned a null pointer.
#[derive(Debug, Clone, Copy, PartialEq, Eq, Hash)]
pub struct CFError {
    operation: &'static str,
}

impl CFError {
    /// The name of the call that failed.
    pub closed spec fn spec_operation(&self) -> &'static str {
        self.operation
    }

    /// An error for the named Core Foundation call.
    pub fn new(operation: &'static str) -> (error: Self)
        ensures
            error.spec_operation() == operation,
    {
        CFError { operation }
    }

    /// The API call that failed.
    pub fn operation(&self) -> (operation: &'static str)
        ensures
            operation == self.spec_operation(),
    {
        self.operation
    }

    /// The text that describes this error.
    pub fn to_string(&self) -> (text: String)
        ensures
            text@ == spec_cf_error_text(*self),
    {
        crate::text::joined(self.operation, " returned a null Core Foundation/Core Graphics pointer")
    }
}

impl StatusError {
    /// The text that describes this error: the operation, the status and the message.
    pub fn to_string(&self) -> (text: String)
        ensures
            text@ == spec_status_error_text(*self),
    {
        let mut text = crate::text::joined(self.operation, " failed with OSStatus ");
        push_signed_decimal(&mut text, self.status as i64);
        text.append(": ");
        text.append(self.message.as_str());
        text
    }
}

/// The status code that an error carries, as `SecurityError::code` reports it.
pub open spec fn spec_code(error: SecurityError) -> Option<OsStatus> {
    match error {
        SecurityError::ItemNotFound(_) => Some(status::ITEM_NOT_FOUND),
        SecurityError::DuplicateItem(_) => Some(status::DUPLICATE_ITEM),
        SecurityError::InteractionNotAllowed(_) => Some(status::INTERACTION_NOT_ALLOWED),
        SecurityError::Status(error) => Some(error.status),
        _ => None,
    }
}

impl SecurityError {
    /// The `OSStatus` behind this error, if it came from one.
    pub fn code(&self) -> (result: Option<OsStatus>)
        ensures
            result == spec_code(*self),
    {
        match self {
            SecurityError::ItemNotFound(_) => Some(status::ITEM_NOT_FOUND),
            SecurityError::DuplicateItem(_) => Some(status::DUPLICATE_ITEM),
            SecurityError::InteractionNotAllowed(_) => Some(status::INTERACTION_NOT_ALLOWED),
            SecurityError::Status(error) => Some(error.status),
            _ => None,
        }
    }

    /// The text that describes this error.
    pub fn to_string(&self) -> (text: String)
        ensures
            text@ == spec_error_text(*self),
    {
        match self {
            SecurityError::InvalidArgument(message) => crate::text::joined(
                "invalid argument: ",
                message.as_str(),
            ),
            SecurityError::ItemNotFound(message) => crate::text::joined(
                "item not found: ",
                message.as_str(),
            ),
            SecurityError::DuplicateItem(message) => crate::text::joined(
                "duplicate item: ",
                message.as_str(),
            ),
            SecurityError::InteractionNotAllowed(message) => crate::text::joined(
                "interaction not allowed: ",
                message.as_str(),
            ),
            SecurityError::TrustEvaluationFailed(message) => crate::text::joined(
                "trust evaluation failed: ",
                message.as_str(),
            ),
            SecurityError::UnexpectedType { operation, expected } => {
                let mut text = crate::text::joined(
                    operation,
                    " returned an unexpected value (expected ",
                );
                text.append(expected);
                text.append(")");
                text
            },
            SecurityError::Serialization(message) => crate::text::joined(
                "serialization error: ",
                message.as_str(),
            ),
            SecurityError::CoreFoundation(error) => error.to_string(),
            SecurityError::Status(error) => error.to_string(),
            SecurityError::Unsupported(message) => crate::text::joined(
                "unsupported: ",
                message.as_str(),
            ),
        }
    }

    /// Maps an `OSStatus` to the error that names it: the keychain codes get
    /// variants of their own, every other code becomes `Status`.
    pub fn from_status(operation: &'static str, status: OsStatus, message: String) -> (error:
        Self)
        ensures
            error == spec_from_status(operation, status, message),
    {
        if status == status::ITEM_NOT_FOUND {
            SecurityError::ItemNotFound(message)
        } else if status == status::DUPLICATE_ITEM {
            SecurityError::DuplicateItem(message)
        } else if status == status::INTERACTION_NOT_ALLOWED {
            SecurityError::InteractionNotAllowed(message)
        } else {
            SecurityError::Status(StatusError { operation, status, message })
        }
    }
}

/// The text that describes a `CFError`.
pub open spec fn spec_cf_error_text(error: CFError) -> Seq<char> {
    error.spec_operation()@ + " returned a null Core Foundation/Core Graphics pointer"@
}

/// The text that describes a `StatusError`.
pub open spec fn spec_status_error_text(error: StatusError) -> Seq<char> {
    error.operation@ + " failed with OSStatus "@ + spec_signed_decimal(error.status as int) + ": "@
        + error.message@
}

/// The text that describes a `SecurityError`.
pub open spec fn spec_error_text(error: SecurityError) -> Seq<char> {
    match error {
        SecurityError::InvalidArgument(message) => "invalid argument: "@ + message@,
        SecurityError::ItemNotFound(message) => "item not found: "@ + message@,
        SecurityError::DuplicateItem(message) => "duplicate item: "@ + message@,
        SecurityError::InteractionNotAllowed(message) => "interaction not allowed: "@ + message@,
        SecurityError::TrustEvaluationFailed(message) => "trust evaluation failed: "@ + message@,
        SecurityError::UnexpectedType { operation, expected } => operation@
            + " returned an unexpected value (expected "@ + expected@ + ")"@,
        SecurityError::Serialization(message) => "serialization error: "@ + message@,
        SecurityError::CoreFoundation(error) => spec_cf_error_text(error),
        SecurityError::Status(error) => spec_status_error_text(error),
        SecurityError::Unsupported(message) => "unsupported: "@ + message@,
    }
}

/// The error that `SecurityError::from_status` gives for a status code.
pub open spec fn spec_from_status(operation: &'static str, status: OsStatus, message: String) -> SecurityError {
    if status == status::ITEM_NOT_FOUND {
        SecurityError::ItemNotFound(message)
    } else if status == status::DUPLICATE_ITEM {
        SecurityError::DuplicateItem(message)
    } else if status == status::INTERACTION_NOT_ALLOWED {
        SecurityError::InteractionNotAllowed(message)
    } else {
        SecurityError::Status(StatusError { operation, status, message })
    }
}

/// An error made from a status code reports that same code.
pub proof fn lemma_from_status_keeps_code(operation: &'static str, status: OsStatus, message: String)
    ensures
        spec_code(spec_from_status(operation, status, message)) == Some(status),
{
}

/// The keychain's status codes get their own errors: `errSecItemNotFound`
/// (-25300), `errSecDuplicateItem` (-25299) and `errSecInteractionNotAllowed`
/// (-25308); every other code, `errSecMissingEntitlement` (-34018) among
/// them, stays a `Status` error that names the operation, the code and the
/// message.
pub proof fn lemma_status_codes(operation: &'static str, status: OsStatus, message: String)
    ensures
        status == -25300 ==> spec_from_status(operation, status, message)
            == SecurityError::ItemNotFound(message),
        status == -25299 ==> spec_from_status(operation, status, message)
            == SecurityError::DuplicateItem(message),
        status == -25308 ==> spec_from_status(operation, status, message)
            == SecurityError::InteractionNotAllowed(message),
        status != -25300 && status != -25299 && status != -25308 ==> spec_from_status(
            operation,
            status,
            message,
        ) == SecurityError::Status(StatusError { operation, status, message }),
        status::MISSING_ENTITLEMENT == -34018,
        status::SUCCESS == 0,
{
}

} // verus!

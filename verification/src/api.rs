//! The control-plane error values the service layer reports.

use vstd::prelude::*;

verus! {

/// The broad category of a service error.
#[derive(Clone, Copy, Debug, PartialEq, Eq, Structural)]
pub enum ErrorCategory {
    /// An unclassified failure.
    Unknown,
    /// The request was cancelled.
    Cancelled,
    /// A request argument was invalid.
    InvalidArgument,
    /// The system was not in the required state.
    FailedPrecondition,
    /// The addressed entity does not exist.
    NotFound,
    /// The caller may not perform the operation.
    PermissionDenied,
    /// The operation is not implemented.
    Unimplemented,
}

impl ErrorCategory {
    /// The HTTP status code a category is reported with.
    pub fn to_status_code(self) -> (r: u16)
        ensures
            self == ErrorCategory::Unknown ==> r == 500,
            self == ErrorCategory::Cancelled ==> r == 503,
            self == ErrorCategory::InvalidArgument ==> r == 400,
            self == ErrorCategory::FailedPrecondition ==> r == 400,
            self == ErrorCategory::NotFound ==> r == 404,
            self == ErrorCategory::PermissionDenied ==> r == 403,
            self == ErrorCategory::Unimplemented ==> r == 500,
    {
        match self {
            ErrorCategory::Unknown => 500,
            ErrorCategory::Cancelled => 503,
            ErrorCategory::InvalidArgument => 400,
            ErrorCategory::FailedPrecondition => 400,
            ErrorCategory::NotFound => 404,
            ErrorCategory::PermissionDenied => 403,
            ErrorCategory::Unimplemented => 500,
        }
    }
}

/// Generates a fresh 21-character instance id.
///
/// Relies on nanoid::format with the default rng and URL-safe alphabet: the
/// returned id always has exactly 21 ASCII characters, whatever the random
/// bytes were.
#[verifier::external_body]
fn generate_instance_id() -> (r: String)
    ensures
        r@.len() == 21,
{
    nanoid::format(nanoid::rngs::default, &nanoid::alphabet::SAFE, 21)
}

/// One service error: category, stable code, fresh instance id, message.
#[derive(Clone, Debug)]
pub struct ApiError {
    /// The category.
    pub category: ErrorCategory,
    /// A stable machine-readable code.
    pub error_code: String,
    /// A fresh id naming this occurrence.
    pub instance_id: String,
    /// A human-readable message.
    pub message: String,
}

impl ApiError {
    /// An error with the given category, code and message, and a fresh
    /// instance id.
    pub fn with_message(category: ErrorCategory, code: &str, message: &str) -> (r: ApiError)
        ensures
            r.category == category,
            r.error_code@ == code@,
            r.message@ == message@,
            r.instance_id@.len() == 21,
    {
        ApiError {
            category,
            error_code: code.to_owned(),
            instance_id: generate_instance_id(),
            message: message.to_owned(),
        }
    }

    /// The not-implemented error.
    pub fn unimplemented() -> (r: ApiError)
        ensures
            r.category == ErrorCategory::Unimplemented,
            r.error_code@ == "unimplemented"@,
            r.message@ == "unimplemented"@,
            r.instance_id@.len() == 21,
    {
        ApiError::with_message(ErrorCategory::Unimplemented, "unimplemented", "unimplemented")
    }

    /// An unclassified error with the given message.
    pub fn unknown(message: &str) -> (r: ApiError)
        ensures
            r.category == ErrorCategory::Unknown,
            r.error_code@ == "unknown"@,
            r.message@ == message@,
            r.instance_id@.len() == 21,
    {
        ApiError::with_message(ErrorCategory::Unknown, "unknown", message)
    }

    /// The service-unavailable error.
    pub fn unavailable() -> (r: ApiError)
        ensures
            r.category == ErrorCategory::Cancelled,
            r.error_code@ == "unavailable"@,
            r.message@ == "service unavailable"@,
            r.instance_id@.len() == 21,
    {
        ApiError::with_message(ErrorCategory::Cancelled, "unavailable", "service unavailable")
    }
}

} // verus!

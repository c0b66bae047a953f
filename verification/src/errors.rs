//! The error taxonomy of the service, and how each error maps to an HTTP
//! status code.

use vstd::prelude::*;

verus! {

/// Every way a request can fail, each carrying the plain-text message that
/// the transport layer sends back.
///
/// `MissingParameter` and `ValidationFailure` are caller errors, `NotFound`
/// means no record matched a lookup, and the last two are internal errors of
/// the store boundary; none of them aborts the process.
#[derive(Clone, Debug)]
pub enum ApiError {
    MissingParameter(String),
    NotFound(String),
    ValidationFailure(String),
    SerializationFailure(String),
    CommitFailure(String),
}

/// The HTTP status code that an error is surfaced with.
pub open spec fn spec_status_code(e: ApiError) -> u16 {
    match e {
        ApiError::MissingParameter(_) => 400,
        ApiError::NotFound(_) => 404,
        ApiError::ValidationFailure(_) => 400,
        ApiError::SerializationFailure(_) => 500,
        ApiError::CommitFailure(_) => 500,
    }
}

/// The plain-text message carried by an error.
pub open spec fn spec_message(e: ApiError) -> Seq<char> {
    match e {
        ApiError::MissingParameter(m) => m@,
        ApiError::NotFound(m) => m@,
        ApiError::ValidationFailure(m) => m@,
        ApiError::SerializationFailure(m) => m@,
        ApiError::CommitFailure(m) => m@,
    }
}

impl ApiError {
    /// The HTTP status code this error is surfaced with: 400 for caller
    /// errors, 404 for a failed lookup, 500 for internal store errors.
    pub fn status_code(&self) -> (r: u16)
        ensures
            r == spec_status_code(*self),
    {
        match self {
            ApiError::MissingParameter(_) => 400,
            ApiError::NotFound(_) => 404,
            ApiError::ValidationFailure(_) => 400,
            ApiError::SerializationFailure(_) => 500,
            ApiError::CommitFailure(_) => 500,
        }
    }

    /// The plain-text body this error is surfaced with.
    pub fn message(&self) -> (r: &String)
        ensures
            r@ == spec_message(*self),
    {
        match self {
            ApiError::MissingParameter(m) => m,
            ApiError::NotFound(m) => m,
            ApiError::ValidationFailure(m) => m,
            ApiError::SerializationFailure(m) => m,
            ApiError::CommitFailure(m) => m,
        }
    }
}

} // verus!

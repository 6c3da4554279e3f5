//! Request-level outcomes and shared payloads.
//!
//! Every handler ends in a body or in one of three outcomes, each with a
//! fixed wire status: a failed validation is the caller's fault (400), an
//! identifier that resolves to nothing is not found (404), and a store
//! failure is internal (500). A missing or malformed field always fails
//! closed with a validation error; it never takes the process down.

use vstd::prelude::*;

verus! {

/// How a request ends when it does not end in a body.
#[derive(Clone, Copy, Debug, PartialEq, Eq, Structural)]
pub enum ApiError {
    /// A required field is missing or malformed.
    Validation,
    /// The lookup matched nothing.
    NotFound,
    /// The store failed.
    Internal,
}

impl ApiError {
    /// The wire status of this outcome.
    pub open spec fn status_code_spec(self) -> u16 {
        match self {
            ApiError::Validation => 400,
            ApiError::NotFound => 404,
            ApiError::Internal => 500,
        }
    }

    /// The wire status of this outcome: 400, 404 or 500.
    pub fn status_code(&self) -> (r: u16)
        ensures
            r == self.status_code_spec(),
    {
        match self {
            ApiError::Validation => 400,
            ApiError::NotFound => 404,
            ApiError::Internal => 500,
        }
    }
}

/// A request payload that carries one identifier in text form.
#[derive(Debug, PartialEq, Eq)]
pub struct IdPayload {
    pub id: String,
}

} // verus!

//! The failures that the service reports to its clients.

use vstd::prelude::*;

verus! {

/// A failure of a request, with the message for the client.
#[derive(Clone, Debug)]
pub enum ApiError {
    /// The credentials or the token were not accepted.
    Authentication(String),
    /// The request is at odds with what exists.
    Conflict(String),
    /// The request is malformed.
    Validation(String),
    /// What was asked for does not exist.
    NotFound(String),
    /// The client has made too many requests.
    RateLimit(String),
    /// The service failed.
    InternalServerError(String),
}

} // verus!

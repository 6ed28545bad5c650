//! The error surface of the HTTP layer: which fault class a failure maps
//! to, and the status code of each class.

use vstd::prelude::*;

verus! {

/// A request-level failure class.
#[derive(Debug, Clone, PartialEq, Eq)]
pub enum ApplicationError {
    InternalServerError,
    BadRequest(String),
    ServiceUnavailable,
}

impl ApplicationError {
    /// The HTTP status code of each class.
    pub fn status_code(&self) -> (r: u16)
        ensures
            r == match *self {
                ApplicationError::InternalServerError => 500u16,
                ApplicationError::BadRequest(_) => 400u16,
                ApplicationError::ServiceUnavailable => 504u16,
            },
    {
        match self {
            ApplicationError::InternalServerError => 500,
            ApplicationError::BadRequest(_) => 400,
            ApplicationError::ServiceUnavailable => 504,
        }
    }
}

/// A server-side fault: the message is dropped and the class returned.
#[allow(unused_variables)]
pub fn internal_server_error(error: String) -> (r: ApplicationError)
    ensures
        r is InternalServerError,
{
    ApplicationError::InternalServerError
}

/// A client fault: the message travels in the response body.
pub fn bad_request_body(error: String) -> (r: ApplicationError)
    ensures
        r == ApplicationError::BadRequest(error),
{
    ApplicationError::BadRequest(error)
}

} // verus!

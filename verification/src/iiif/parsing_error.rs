//! Errors by kind, and the page that each is answered with.

use vstd::prelude::*;
use crate::responder_wrapper::ResponderWrapper;

verus! {

/// An error with its message.
#[derive(Debug)]
pub enum ErrorReturnType {
    BadRequest(String),
    NotFound(String),
    InternalError(String),
}

impl ErrorReturnType {
    /// The page that the error is answered with.
    pub fn get_response(&self) -> (r: ResponderWrapper)
        ensures
            match *self {
                ErrorReturnType::BadRequest(s) => r.is_page(400, "400 - Bad Request!"@, s@),
                ErrorReturnType::InternalError(s) => r.is_page(
                    500,
                    "500 - Internal Server Error"@,
                    s@,
                ),
                ErrorReturnType::NotFound(s) => r.is_page(404, "404 - Not found!"@, s@),
            },
    {
        match self {
            ErrorReturnType::BadRequest(s) => ResponderWrapper::bad_request(s.as_str()),
            ErrorReturnType::InternalError(s) => ResponderWrapper::server_error(s.as_str()),
            ErrorReturnType::NotFound(s) => ResponderWrapper::not_found(s.as_str()),
        }
    }
}

} // verus!

//! The error model: one error value with a kind, which fixes the HTTP
//! status, and a message.

use vstd::prelude::*;
use crate::text::{append_decimal, decimal_text};

verus! {

/// The kind of an error, named after the HTTP status it is answered with.
#[derive(Clone, Copy, Debug, PartialEq, Eq, Structural)]
pub enum StatusCode {
    BadRequest,
    NotFound,
    InternalServerError,
}

impl StatusCode {
    /// The number of the HTTP status.
    pub open spec fn number(self) -> nat {
        match self {
            StatusCode::BadRequest => 400,
            StatusCode::NotFound => 404,
            StatusCode::InternalServerError => 500,
        }
    }

    /// The number of the HTTP status.
    pub fn code(&self) -> (n: u16)
        ensures
            n == self.number(),
    {
        match self {
            StatusCode::BadRequest => 400,
            StatusCode::NotFound => 404,
            StatusCode::InternalServerError => 500,
        }
    }
}

/// An error of the request pipeline.
#[derive(Debug)]
pub struct WifError {
    pub status: StatusCode,
    pub message: String,
}

/// What an error says: its kind and the text of its message.
pub struct Failure {
    pub status: StatusCode,
    pub message: Seq<char>,
}

impl View for WifError {
    type V = Failure;

    open spec fn view(&self) -> Failure {
        Failure { status: self.status, message: self.message@ }
    }
}

/// A result with its error, if any, replaced by what the error says.
pub open spec fn outcome<T>(r: Result<T, WifError>) -> Result<T, Failure> {
    match r {
        Ok(v) => Ok(v),
        Err(e) => Err(e@),
    }
}

/// A bad request with the message `m`.
pub open spec fn bad_request(m: Seq<char>) -> Failure {
    Failure { status: StatusCode::BadRequest, message: m }
}

/// A missing resource with the message `m`.
pub open spec fn not_found(m: Seq<char>) -> Failure {
    Failure { status: StatusCode::NotFound, message: m }
}

/// An internal error with the message `m`.
pub open spec fn internal_error(m: Seq<char>) -> Failure {
    Failure { status: StatusCode::InternalServerError, message: m }
}

/// The body sent for every internal error, whatever its message.
pub const INTERNAL_BODY: &'static str = "Internal Server Error";

impl WifError {
    /// An error answered with 404.
    pub fn not_found(m: String) -> (e: Self)
        ensures
            e@ == not_found(m@),
    {
        WifError { status: StatusCode::NotFound, message: m }
    }

    /// An error answered with 400.
    pub fn bad_request(m: String) -> (e: Self)
        ensures
            e@ == bad_request(m@),
    {
        WifError { status: StatusCode::BadRequest, message: m }
    }

    /// An error answered with 500.
    pub fn internal_error(m: String) -> (e: Self)
        ensures
            e@ == internal_error(m@),
    {
        WifError { status: StatusCode::InternalServerError, message: m }
    }

    /// The body that a client is sent for this error: the message, except
    /// for an internal error, whose message stays in the log.
    pub open spec fn body_spec(self) -> Seq<char> {
        match self.status {
            StatusCode::InternalServerError => INTERNAL_BODY@,
            _ => self.message@,
        }
    }

    /// The body that a client is sent for this error.
    pub fn body(&self) -> (b: String)
        ensures
            b@ == self.body_spec(),
    {
        match self.status {
            StatusCode::InternalServerError => INTERNAL_BODY.to_owned(),
            _ => self.message.clone(),
        }
    }

    /// The error as one line of text: the status number, ` - `, the message.
    pub open spec fn line(self) -> Seq<char> {
        decimal_text(self.status.number()) + " - "@ + self.message@
    }

    /// The error as one line of text, for logs.
    pub fn to_text(&self) -> (s: String)
        ensures
            s@ == self.line(),
    {
        let mut s = String::new();
        append_decimal(&mut s, self.status.code() as u64);
        s.append(" - ");
        s.append(self.message.as_str());
        s
    }
}

} // verus!

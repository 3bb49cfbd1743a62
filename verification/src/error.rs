//! The closed set of failure kinds and their external representation.

use vstd::prelude::*;

verus! {

/// A failure that may reach the transport boundary.
#[derive(Debug, Clone, Copy, PartialEq, Eq, Structural)]
pub enum MyError {
    /// The client sent data that could not be used.
    BadClientData,
    /// No record has the requested id.
    NotFound,
    /// No connection could be had, or the store could not be reached.
    ServerUnavailable,
    /// The credential is missing or does not verify.
    Unauthorized,
    /// The payload violates a field constraint.
    ValidationFailed,
    /// An upstream call exceeded its deadline.
    Timeout,
    /// Anything unexpected or unclassified.
    InternalError,
}

/// What is sent to the client for a failure.
#[derive(Debug, PartialEq, Eq)]
pub struct ErrorResponse {
    pub status: u16,
    pub content_type: String,
    pub body: String,
}

/// The media type of every failure body.
pub open spec fn error_content_type() -> Seq<char> {
    "text/html; charset=utf-8"@
}

impl MyError {
    /// The HTTP status that stands for this kind.
    pub open spec fn status(self) -> int {
        match self {
            MyError::BadClientData => 400,
            MyError::NotFound => 404,
            MyError::ServerUnavailable => 503,
            MyError::Unauthorized => 401,
            MyError::ValidationFailed => 406,
            MyError::Timeout => 504,
            MyError::InternalError => 500,
        }
    }

    /// The reason text that stands for this kind.
    pub open spec fn reason_text(self) -> Seq<char> {
        match self {
            MyError::BadClientData => "Bad request"@,
            MyError::NotFound => "Not found"@,
            MyError::ServerUnavailable => "Server Unavailable"@,
            MyError::Unauthorized => "Unauthorized"@,
            MyError::ValidationFailed => "Validation failed"@,
            MyError::Timeout => "Timeout"@,
            MyError::InternalError => "Internal error"@,
        }
    }

    /// Only these two kinds call for an operator's attention.
    pub open spec fn alert_worthy(self) -> bool {
        self == MyError::ServerUnavailable || self == MyError::InternalError
    }

    pub fn status_code(&self) -> (code: u16)
        ensures
            code == self.status(),
    {
        match self {
            MyError::BadClientData => 400,
            MyError::NotFound => 404,
            MyError::ServerUnavailable => 503,
            MyError::Unauthorized => 401,
            MyError::ValidationFailed => 406,
            MyError::Timeout => 504,
            MyError::InternalError => 500,
        }
    }

    pub fn reason(&self) -> (text: String)
        ensures
            text@ == self.reason_text(),
    {
        match self {
            MyError::BadClientData => "Bad request".to_owned(),
            MyError::NotFound => "Not found".to_owned(),
            MyError::ServerUnavailable => "Server Unavailable".to_owned(),
            MyError::Unauthorized => "Unauthorized".to_owned(),
            MyError::ValidationFailed => "Validation failed".to_owned(),
            MyError::Timeout => "Timeout".to_owned(),
            MyError::InternalError => "Internal error".to_owned(),
        }
    }

    pub fn is_alert_worthy(&self) -> (alert: bool)
        ensures
            alert == self.alert_worthy(),
    {
        match self {
            MyError::ServerUnavailable | MyError::InternalError => true,
            _ => false,
        }
    }

    /// The whole response for this failure: its status, an HTML content type
    /// and the reason text as body.
    pub fn error_response(&self) -> (response: ErrorResponse)
        ensures
            response.status == self.status(),
            response.content_type@ == error_content_type(),
            response.body@ == self.reason_text(),
    {
        ErrorResponse {
            status: self.status_code(),
            content_type: "text/html; charset=utf-8".to_owned(),
            body: self.reason(),
        }
    }
}

/// Two kinds never share a status.
pub proof fn lemma_status_identifies_kind(a: MyError, b: MyError)
    requires
        a.status() == b.status(),
    ensures
        a == b,
{
}

} // verus!

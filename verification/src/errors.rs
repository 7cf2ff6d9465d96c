//! The failure taxonomy and its mapping to HTTP status codes.

use vstd::prelude::*;

verus! {

/// The kinds of failure the service distinguishes.
#[derive(Clone, Copy, Debug, PartialEq, Eq, Structural)]
pub enum AppErrorType {
    /// Acquiring a connection, or running a query or insert, failed.
    DbError,
    /// The `event` query parameter held malformed JSON.
    DecodeError,
    /// A point lookup matched no row.
    NotFoundError,
    /// No handler is registered for the request's method and path.
    RouteNotMatched,
}

impl AppErrorType {
    /// The HTTP status reported for this kind of failure: 500 for database
    /// failures and unmatched routes, 400 for a malformed event parameter,
    /// 404 for a missing row.
    pub open spec fn spec_status(self) -> u16 {
        match self {
            AppErrorType::DbError => 500,
            AppErrorType::DecodeError => 400,
            AppErrorType::NotFoundError => 404,
            AppErrorType::RouteNotMatched => 500,
        }
    }

    /// Maps the failure kind to its HTTP status code.
    pub fn status_code(&self) -> (c: u16)
        ensures
            c == self.spec_status(),
    {
        match self {
            AppErrorType::DbError => 500,
            AppErrorType::DecodeError => 400,
            AppErrorType::NotFoundError => 404,
            AppErrorType::RouteNotMatched => 500,
        }
    }
}

/// One failure, with an optional caller-facing message and an optional
/// underlying cause.
#[derive(Clone, Debug, PartialEq)]
pub struct AppError {
    pub message: Option<String>,
    pub cause: Option<String>,
    pub error_type: AppErrorType,
}

impl AppError {
    /// The message reported to the caller: the error's own message when it
    /// has one, otherwise the fixed fallback message.
    pub open spec fn spec_public_message(self) -> Seq<char> {
        match self.message {
            Some(m) => m@,
            None => "request failed"@,
        }
    }

    /// A bare error of the given kind, with no message and no cause.
    pub fn of(error_type: AppErrorType) -> (e: AppError)
        ensures
            e.error_type == error_type,
            e.message is None,
            e.cause is None,
    {
        AppError { message: None, cause: None, error_type }
    }

    /// Returns the message reported to the caller.
    pub fn public_message(&self) -> (m: String)
        ensures
            m@ == self.spec_public_message(),
    {
        match &self.message {
            Some(m) => m.clone(),
            None => "request failed".to_owned(),
        }
    }

    /// Maps the error to the HTTP status code of its kind.
    pub fn status_code(&self) -> (c: u16)
        ensures
            c == self.error_type.spec_status(),
    {
        self.error_type.status_code()
    }
}

} // verus!

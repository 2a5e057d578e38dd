use vstd::prelude::*;
use vstd::string::StringExecFns;

use crate::error::RenderError;

verus! {

/// The error a request handler returns: every rendering error becomes this
/// one opaque error, which keeps its cause for the logs.
#[derive(Debug)]
pub struct AppError {
    pub cause: RenderError,
}

impl AppError {
    pub fn new(cause: RenderError) -> (r: AppError)
        ensures
            r.cause == cause,
    {
        AppError { cause }
    }

    /// The rendering error behind this one, for diagnostics.
    pub fn cause(&self) -> (r: &RenderError)
        ensures
            *r == self.cause,
    {
        &self.cause
    }

    /// The HTTP status of the response: always a server error.
    pub fn status_code(&self) -> (r: u16)
        ensures
            r == 500,
    {
        500
    }

    /// The body of the response. It is the same for every error: the cause is
    /// kept for the logs and not shown to clients.
    pub fn body(&self) -> (r: String)
        ensures
            r@ == "Server Error"@,
    {
        String::from_str("Server Error")
    }
}

impl From<RenderError> for AppError {
    fn from(cause: RenderError) -> (r: AppError) {
        AppError { cause }
    }
}

impl vstd::std_specs::convert::FromSpecImpl<RenderError> for AppError {
    open spec fn obeys_from_spec() -> bool {
        true
    }

    open spec fn from_spec(cause: RenderError) -> AppError {
        AppError { cause }
    }
}

/// The empty body of a call that succeeded.
#[derive(Clone, Copy, Debug, PartialEq, Eq)]
pub struct Success {}

/// The query parameters of a greeting page.
#[derive(Clone, Debug, PartialEq, Eq)]
pub struct Param {
    pub name: String,
}

/// A stored user.
#[derive(Clone, Debug, PartialEq, Eq)]
pub struct User {
    pub id: i64,
    pub name: String,
}

/// A user to be stored; the store assigns the id.
#[derive(Clone, Debug, PartialEq, Eq)]
pub struct AddUser {
    pub name: String,
}

} // verus!

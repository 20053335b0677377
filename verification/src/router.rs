//! The transport-facing data of the HTTP adapter: request shapes, the
//! response classification of failures, and static-page configuration. The
//! HTTP wiring itself lives outside the library and consumes these.

use vstd::prelude::*;

use crate::error::{Failure, RejectKind};

verus! {

/// Route configuration supplied by the application context.
pub trait RouteConfig {
    fn cookie_name(&self) -> &str;

    fn path_prefix(&self) -> &str;
}

/// The inbound register form: a login handle, a display name and a raw
/// password.
#[derive(Debug, Clone)]
pub struct RegisterUserRequest {
    pub display_id: String,
    pub name: String,
    pub password: String,
}

/// The inbound login form: a login handle and a raw password.
#[derive(Debug, Clone)]
pub struct LoginUserRequest {
    pub display_id: String,
    pub password: String,
}

/// A failure on its way out to a client.
#[derive(Debug)]
pub struct ErrorResponse(pub Failure);

/// The HTTP status a failure translates to: each rejection kind has its own
/// status, and every opaque internal error is a 500 with no detail leaked.
pub open spec fn status_of(f: Failure) -> u16 {
    match f {
        Failure::Reject(rej) => match rej.kind {
            RejectKind::Unauthorized => 401,
            RejectKind::BadRequest => 400,
            RejectKind::NotFound => 404,
            RejectKind::Conflict => 409,
        },
        Failure::Error(_) => 500,
    }
}

impl ErrorResponse {
    pub fn new(failure: Failure) -> (r: ErrorResponse)
        ensures
            r.0 == failure,
    {
        ErrorResponse(failure)
    }

    /// The HTTP status code this failure maps to.
    pub fn status_code(&self) -> (r: u16)
        ensures
            r == status_of(self.0),
    {
        match &self.0 {
            Failure::Reject(rej) => match rej.kind {
                RejectKind::Unauthorized => 401,
                RejectKind::BadRequest => 400,
                RejectKind::NotFound => 404,
                RejectKind::Conflict => 409,
            },
            Failure::Error(_) => 500,
        }
    }
}

/// Configuration for serving one static HTML page: the path prefix the page
/// links back to, and the file path to serve.
#[derive(Debug, Clone)]
pub struct ServeHtmlConf {
    pub prefix: String,
    pub path: String,
}

impl ServeHtmlConf {
    pub fn new(prefix: &str, path: &str) -> (r: ServeHtmlConf)
        ensures
            r.prefix@ == prefix@,
            r.path@ == path@,
    {
        ServeHtmlConf { prefix: prefix.to_owned(), path: path.to_owned() }
    }
}

} // verus!

//! The two-tier failure taxonomy: classified, client-safe rejections and
//! opaque internal errors.

use vstd::prelude::*;

verus! {

/// The classification of a user-facing rejection.
#[derive(Debug, Clone, Copy, PartialEq, Eq, Hash, Structural)]
pub enum RejectKind {
    Unauthorized,
    BadRequest,
    NotFound,
    Conflict,
}

/// A classified, user-facing failure whose message is safe to return to a
/// client.
#[derive(Debug, Clone)]
pub struct Reject {
    pub kind: RejectKind,
    pub message: String,
}

/// A failure of an operation: either a classified rejection or an opaque
/// internal error whose message is meant for server-side logs only.
#[derive(Debug, Clone)]
pub enum Failure {
    Reject(Reject),
    Error(String),
}

/// Holds when `f` is a rejection of kind `k`.
pub open spec fn is_reject_of(f: Failure, k: RejectKind) -> bool {
    f matches Failure::Reject(r) && r.kind == k
}

pub open spec fn is_unauthorized(f: Failure) -> bool {
    is_reject_of(f, RejectKind::Unauthorized)
}

pub open spec fn is_bad_request(f: Failure) -> bool {
    is_reject_of(f, RejectKind::BadRequest)
}

pub open spec fn is_not_found(f: Failure) -> bool {
    is_reject_of(f, RejectKind::NotFound)
}

pub open spec fn is_conflict(f: Failure) -> bool {
    is_reject_of(f, RejectKind::Conflict)
}

/// Holds when `f` is an opaque internal error, not a classified rejection.
pub open spec fn is_internal(f: Failure) -> bool {
    f matches Failure::Error(_)
}

/// The message carried by a failure, whichever tier it belongs to.
pub open spec fn failure_message(f: Failure) -> Seq<char> {
    match f {
        Failure::Reject(r) => r.message@,
        Failure::Error(m) => m@,
    }
}

impl Reject {
    pub fn kind(&self) -> (r: RejectKind)
        ensures
            r == self.kind,
    {
        self.kind
    }

    pub fn message(&self) -> (r: &str)
        ensures
            r@ == self.message@,
    {
        self.message.as_str()
    }
}

impl Failure {
    pub fn unauthorized(message: &str) -> (r: Failure)
        ensures
            is_unauthorized(r),
            failure_message(r) == message@,
    {
        Failure::Reject(Reject { kind: RejectKind::Unauthorized, message: message.to_owned() })
    }

    pub fn bad_request(message: &str) -> (r: Failure)
        ensures
            is_bad_request(r),
            failure_message(r) == message@,
    {
        Failure::Reject(Reject { kind: RejectKind::BadRequest, message: message.to_owned() })
    }

    pub fn not_found(message: &str) -> (r: Failure)
        ensures
            is_not_found(r),
            failure_message(r) == message@,
    {
        Failure::Reject(Reject { kind: RejectKind::NotFound, message: message.to_owned() })
    }

    pub fn conflict(message: &str) -> (r: Failure)
        ensures
            is_conflict(r),
            failure_message(r) == message@,
    {
        Failure::Reject(Reject { kind: RejectKind::Conflict, message: message.to_owned() })
    }

    /// An opaque internal error: storage, signing or hashing trouble that must
    /// not leak detail to a client.
    pub fn internal(message: &str) -> (r: Failure)
        ensures
            is_internal(r),
            failure_message(r) == message@,
    {
        Failure::Error(message.to_owned())
    }
}

} // verus!

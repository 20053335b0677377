//! The password hasher: a slow, salted, one-way hash for storing and
//! verifying raw passwords, provided by the bcrypt algorithm.
//!
//! Verification is a pure function of the password and the stored hash; its
//! outcome is named by `bcrypt_check`. Hashing embeds a random per-hash salt,
//! so its output cannot be named, but every hash it produces verifies as true
//! against the password it was made from.

use vstd::prelude::*;

use crate::error::{is_internal, Failure, failure_message};

verus! {

/// The outcome of checking a raw password against a stored bcrypt hash:
/// `None` when the stored hash is malformed, otherwise `Some` of whether the
/// password matches. A function of the two strings alone.
pub uninterp spec fn bcrypt_check(raw: Seq<char>, hashed: Seq<char>) -> Option<bool>;

/// Relies on bcrypt::verify: the result is computed from the password and the
/// hash string alone (the salt and cost are read back out of the hash), so it
/// is the function named `bcrypt_check`; an error arises exactly on a
/// malformed hash — bad format, bad base64, or an embedded cost outside the
/// algorithm's allowed range.
#[verifier::external_body]
fn bcrypt_verify_raw(raw: &str, hashed: &str) -> (r: Option<bool>)
    ensures
        r == bcrypt_check(raw@, hashed@),
{
    bcrypt::verify(raw, hashed).ok()
}

/// Relies on bcrypt::hash: on success the output is a well-formed 60-character
/// hash string that verifies as true against the same password; the call fails
/// on a cost factor outside the algorithm's allowed range.
#[verifier::external_body]
fn bcrypt_hash_raw(raw: &str, cost: u32) -> (r: Option<String>)
    ensures
        r matches Some(h) ==> bcrypt_check(raw@, h@) == Some(true) && h@.len() == 60,
{
    bcrypt::hash(raw, cost).ok()
}

/// Hashes a raw password with the given cost factor. On success the returned
/// hash verifies as true against `raw`; a hashing failure is an opaque
/// internal error, never a rejection.
pub fn hash(raw: &str, cost: u32) -> (r: Result<String, Failure>)
    ensures
        r matches Ok(h) ==> bcrypt_check(raw@, h@) == Some(true) && h@.len() == 60,
        r matches Err(f) ==> is_internal(f) && failure_message(f) == "Failed to hash password"@,
{
    match bcrypt_hash_raw(raw, cost) {
        Some(h) => Ok(h),
        None => Err(Failure::internal("Failed to hash password")),
    }
}

/// Checks a raw password against a stored hash. A malformed stored hash is an
/// internal error, not a `false`: corruption must not pass for a wrong
/// password.
pub fn verify(raw: &str, hashed: &str) -> (r: Result<bool, Failure>)
    ensures
        match r {
            Ok(b) => bcrypt_check(raw@, hashed@) == Some(b),
            Err(f) => bcrypt_check(raw@, hashed@) is None && is_internal(f)
                && failure_message(f) == "Failed to challenge bcrypt hash"@,
        },
{
    match bcrypt_verify_raw(raw, hashed) {
        Some(b) => Ok(b),
        None => Err(Failure::internal("Failed to challenge bcrypt hash")),
    }
}

} // verus!

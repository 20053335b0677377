//! The domain entities and the parameter types of the core use cases.

use vstd::prelude::*;

verus! {

/// An opaque unique user identifier: a 128-bit random value held as two
/// 64-bit halves, immutable once assigned and never reused.
#[derive(Debug, Clone, Copy, PartialEq, Eq, Hash, Structural)]
pub struct UserId {
    pub hi: u64,
    pub lo: u64,
}

/// A user identity record. `display_id` is the user-chosen login handle,
/// unique across all users; `name` is the display name.
#[derive(Debug, Clone)]
pub struct User {
    pub id: UserId,
    pub display_id: String,
    pub name: String,
}

/// Selects a user either by internal id or by login handle.
#[derive(Debug, Clone)]
pub enum GetUserParams {
    ById(UserId),
    ByDisplayId(String),
}

pub struct CreateUserParams {
    pub display_id: String,
    pub name: String,
}

pub struct SaveUserPasswordParams {
    pub user_id: UserId,
    pub raw: String,
}

pub struct VerifyUserPasswordParams {
    pub user_id: UserId,
    pub raw: String,
}

pub struct RegisterUserParams {
    pub display_id: String,
    pub name: String,
    pub raw_password: String,
}

pub struct UpdateUserPasswordParams {
    pub user_id: UserId,
    pub new_raw: String,
}

/// An opaque signed token string asserting a user identity and a validity
/// window. Not persisted; constructed and validated on demand.
#[derive(Debug, Clone)]
pub struct Credential(pub String);

pub struct MakeCredentialParams {
    pub user_id: UserId,
}

} // verus!

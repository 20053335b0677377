//! A minimal user-registration and session-authentication library.
//!
//! The crate verifies the authentication core: account registration with a
//! uniqueness guarantee on display ids, password storage and verification
//! through a slow salted hash, and issuance and validation of signed, expiring
//! bearer credentials. Transport adapters (HTTP routing, cookies, a SQL-backed
//! store) live outside the library and call into these verified operations.

pub mod entity;
pub mod error;
pub mod hasher;
pub mod options;
pub mod provide;
pub mod registry;
pub mod repository;
pub mod router;
pub mod token;

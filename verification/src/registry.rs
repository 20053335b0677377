//! The user registry: the orchestrator composing the user store and the
//! password hasher behind the register and authenticate use cases.

use vstd::prelude::*;

use crate::entity::{
    CreateUserParams, GetUserParams, RegisterUserParams, SaveUserPasswordParams,
    UpdateUserPasswordParams, User, UserId, VerifyUserPasswordParams,
};
use crate::error::{failure_message, is_conflict, is_internal, is_not_found, Failure};
use crate::hasher::bcrypt_check;
use crate::repository::{
    has_user_with_display_id, has_user_with_id, password_of, user_by_display_id, user_by_id,
    verify_password_spec, BcryptConfig, Repository,
};

verus! {

/// The registry itself carries no state: every operation takes the store it
/// works against, so the same business rules run whatever backend supplies
/// the store.
#[derive(Debug, Clone, Copy)]
pub struct Registry {}

impl Registry {
    pub fn new() -> (r: Registry) {
        Registry {}
    }

    /// Fetches the user selected by `params`, or reports that none exists.
    pub fn get_user(&self, store: &Repository, params: GetUserParams) -> (r: Result<
        User,
        Failure,
    >)
        requires
            store.wf(),
        ensures
            match params {
                GetUserParams::ById(id) => match r {
                    Ok(u) => user_by_id(store.users_seq(), id) == Some(u),
                    Err(f) => user_by_id(store.users_seq(), id) is None && is_not_found(f),
                },
                GetUserParams::ByDisplayId(d) => match r {
                    Ok(u) => user_by_display_id(store.users_seq(), d@) == Some(u),
                    Err(f) => user_by_display_id(store.users_seq(), d@) is None && is_not_found(f),
                },
            },
    {
        store.get_user(params)
    }

    /// Fetches every registered user. No order is guaranteed to callers.
    pub fn get_users(&self, store: &Repository) -> (r: Vec<User>)
        ensures
            r@ == store.users_seq(),
    {
        store.get_users()
    }

    /// Registers a new user: rejects a taken display id with `Conflict`,
    /// otherwise hashes the password, then creates the identity record and
    /// stores the hash. Every fallible step comes before the first write, so
    /// a failure leaves the store unchanged: a user is never created without
    /// a stored password.
    pub fn register_user(&self, store: &mut Repository, params: RegisterUserParams) -> (r: Result<
        User,
        Failure,
    >)
        requires
            old(store).wf(),
        ensures
            final(store).wf(),
            final(store).cost_spec() == old(store).cost_spec(),
            has_user_with_display_id(old(store).users_seq(), params.display_id@) ==> (r matches Err(
                f,
            ) && is_conflict(f)),
            match r {
                Ok(u) => {
                    &&& !has_user_with_display_id(old(store).users_seq(), params.display_id@)
                    &&& !has_user_with_id(old(store).users_seq(), u.id)
                    &&& u.display_id@ == params.display_id@
                    &&& u.name@ == params.name@
                    &&& final(store).users_seq() == old(store).users_seq().push(u)
                    &&& match password_of(final(store).passwords_seq(), u.id) {
                        Some(h) => bcrypt_check(params.raw_password@, h) == Some(true),
                        None => false,
                    }
                    &&& forall|other: UserId|
                        other != u.id ==> password_of(final(store).passwords_seq(), other)
                            == password_of(old(store).passwords_seq(), other)
                },
                Err(f) => {
                    &&& final(store).users_seq() == old(store).users_seq()
                    &&& final(store).passwords_seq() == old(store).passwords_seq()
                    &&& (is_conflict(f) <==> has_user_with_display_id(
                        old(store).users_seq(),
                        params.display_id@,
                    ))
                    &&& (is_conflict(f) ==> failure_message(f)
                        == "A user with the same display id already exists"@)
                    &&& (!is_conflict(f) ==> is_internal(f))
                },
            },
    {
        let RegisterUserParams { display_id, name, raw_password } = params;
        if let Ok(_) = store.get_user(GetUserParams::ByDisplayId(display_id.clone())) {
            return Err(Failure::conflict("A user with the same display id already exists"));
        }
        let hashed = match crate::hasher::hash(raw_password.as_str(), store.bcrypt_cost()) {
            Ok(h) => h,
            Err(f) => { return Err(f); },
        };
        let user = match store.create_user(CreateUserParams { display_id, name }) {
            Ok(u) => u,
            Err(f) => { return Err(f); },
        };
        store.store_password_hash(user.id, hashed);
        Ok(user)
    }

    /// Re-hashes `new_raw` and overwrites the stored hash for the user. No
    /// history is kept and no old-password check happens at this layer.
    pub fn update_user_password(
        &self,
        store: &mut Repository,
        params: UpdateUserPasswordParams,
    ) -> (r: Result<(), Failure>)
        ensures
            final(store).users_seq() == old(store).users_seq(),
            final(store).cost_spec() == old(store).cost_spec(),
            match r {
                Ok(_) => (match password_of(final(store).passwords_seq(), params.user_id) {
                    Some(h) => bcrypt_check(params.new_raw@, h) == Some(true),
                    None => false,
                }) && forall|other: UserId|
                    other != params.user_id ==> password_of(final(store).passwords_seq(), other)
                        == password_of(old(store).passwords_seq(), other),
                Err(f) => final(store).passwords_seq() == old(store).passwords_seq()
                    && is_internal(f),
            },
    {
        let UpdateUserPasswordParams { user_id, new_raw } = params;
        store.save_user_password(SaveUserPasswordParams { user_id, raw: new_raw })
    }

    /// Checks a raw password for a user id: `NotFound` when no hash is
    /// stored, an internal error when the stored hash is malformed, and the
    /// boolean answer otherwise.
    pub fn verify_user_password(
        &self,
        store: &Repository,
        params: VerifyUserPasswordParams,
    ) -> (r: Result<bool, Failure>)
        ensures
            ({
                let o = verify_password_spec(store.passwords_seq(), params.user_id, params.raw@);
                match r {
                    Ok(b) => o == Some(Some(b)),
                    Err(f) => match o {
                        None => is_not_found(f) && failure_message(f) == "password not found"@,
                        Some(inner) => inner is None && is_internal(f),
                    },
                }
            }),
    {
        store.verify_user_password(params)
    }
}

} // verus!

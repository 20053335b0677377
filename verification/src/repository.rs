//! The user store: identity records and password hashes.
//!
//! The store is an in-memory repository with two tables. The user table keeps
//! ids and display ids unique (the uniqueness constraint is enforced here, at
//! the storage layer, so the registry's conflict signal cannot race). The
//! password table is append-only at the representation level, but a later
//! record for a user supersedes an earlier one, which gives upsert semantics:
//! `pw_map` reads the records back into the map they describe.

use vstd::prelude::*;

use crate::entity::{
    CreateUserParams, GetUserParams, SaveUserPasswordParams, User, UserId,
    VerifyUserPasswordParams,
};
use crate::error::{failure_message, is_conflict, is_internal, is_not_found, Failure};
use crate::hasher;
use crate::hasher::bcrypt_check;

verus! {

/// One stored password hash, keyed by the owning user's id.
pub struct PasswordRecord {
    pub user_id: UserId,
    pub hash: String,
}

/// The user store, together with the configured password-hash cost factor.
pub struct Repository {
    bcrypt_cost: u32,
    users: Vec<User>,
    passwords: Vec<PasswordRecord>,
}

/// Supplies the cost factor used when hashing new passwords.
pub trait BcryptConfig {
    fn bcrypt_cost(&self) -> u32;
}

pub open spec fn has_user_with_id(users: Seq<User>, id: UserId) -> bool {
    exists|i: int| 0 <= i < users.len() && users[i].id == id
}

pub open spec fn has_user_with_display_id(users: Seq<User>, display_id: Seq<char>) -> bool {
    exists|i: int| 0 <= i < users.len() && users[i].display_id@ == display_id
}

/// The user stored under `id`, if any.
pub open spec fn user_by_id(users: Seq<User>, id: UserId) -> Option<User> {
    if has_user_with_id(users, id) {
        Some(users[choose|i: int| 0 <= i < users.len() && users[i].id == id])
    } else {
        None
    }
}

/// The user stored under the login handle `display_id`, if any.
pub open spec fn user_by_display_id(users: Seq<User>, display_id: Seq<char>) -> Option<User> {
    if has_user_with_display_id(users, display_id) {
        Some(users[choose|i: int| 0 <= i < users.len() && users[i].display_id@ == display_id])
    } else {
        None
    }
}

/// Ids and display ids are unique across the stored users.
pub open spec fn unique_users(users: Seq<User>) -> bool {
    forall|i: int, j: int|
        0 <= i < j < users.len() ==> users[i].id != users[j].id && users[i].display_id@
            != users[j].display_id@
}

/// The password table described by the stored records; a later record for the
/// same user supersedes an earlier one.
pub open spec fn pw_map(pws: Seq<PasswordRecord>) -> Map<UserId, Seq<char>>
    decreases pws.len(),
{
    if pws.len() == 0 {
        Map::empty()
    } else {
        pw_map(pws.drop_last()).insert(pws.last().user_id, pws.last().hash@)
    }
}

/// The hash currently stored for `id`, if any.
pub open spec fn password_of(pws: Seq<PasswordRecord>, id: UserId) -> Option<Seq<char>> {
    if pw_map(pws).contains_key(id) {
        Some(pw_map(pws)[id])
    } else {
        None
    }
}

/// The outcome of verifying `raw` for `id` against the stored records: `None`
/// when no hash is stored, `Some(None)` when the stored hash is malformed,
/// and `Some(Some(b))` when the check answers `b`.
pub open spec fn verify_password_spec(
    pws: Seq<PasswordRecord>,
    id: UserId,
    raw: Seq<char>,
) -> Option<Option<bool>> {
    match password_of(pws, id) {
        Some(h) => Some(bcrypt_check(raw, h)),
        None => None,
    }
}

/// Law: once a hash that checks as true for `raw` is the stored hash of
/// `id`, password verification for `(id, raw)` answers true.
pub proof fn lemma_password_round_trip(
    pws: Seq<PasswordRecord>,
    id: UserId,
    raw: Seq<char>,
    h: Seq<char>,
)
    requires
        password_of(pws, id) == Some(h),
        bcrypt_check(raw, h) == Some(true),
    ensures
        verify_password_spec(pws, id, raw) == Some(Some(true)),
{
}

proof fn lemma_user_by_id_at(users: Seq<User>, i: int)
    requires
        unique_users(users),
        0 <= i < users.len(),
    ensures
        user_by_id(users, users[i].id) == Some(users[i]),
{
    let id = users[i].id;
    assert(has_user_with_id(users, id));
    let c = choose|k: int| 0 <= k < users.len() && users[k].id == id;
    if c < i {
        assert(users[c].id != users[i].id);
    } else if i < c {
        assert(users[i].id != users[c].id);
    }
}

proof fn lemma_user_by_display_id_at(users: Seq<User>, i: int)
    requires
        unique_users(users),
        0 <= i < users.len(),
    ensures
        user_by_display_id(users, users[i].display_id@) == Some(users[i]),
{
    let d = users[i].display_id@;
    assert(has_user_with_display_id(users, d));
    let c = choose|k: int| 0 <= k < users.len() && users[k].display_id@ == d;
    if c < i {
        assert(users[c].display_id@ != users[i].display_id@);
    } else if i < c {
        assert(users[i].display_id@ != users[c].display_id@);
    }
}

proof fn lemma_pw_map_absent(pws: Seq<PasswordRecord>, id: UserId)
    requires
        forall|k: int| 0 <= k < pws.len() ==> pws[k].user_id != id,
    ensures
        !pw_map(pws).contains_key(id),
    decreases pws.len(),
{
    if pws.len() > 0 {
        assert(pws.last() == pws[pws.len() - 1]);
        assert forall|k: int| 0 <= k < pws.drop_last().len() implies pws.drop_last()[k].user_id
            != id by {
            assert(pws.drop_last()[k] == pws[k]);
        }
        lemma_pw_map_absent(pws.drop_last(), id);
    }
}

proof fn lemma_pw_map_last_match(pws: Seq<PasswordRecord>, i: int)
    requires
        0 <= i < pws.len(),
        forall|k: int| i < k < pws.len() ==> pws[k].user_id != pws[i].user_id,
    ensures
        pw_map(pws).contains_key(pws[i].user_id),
        pw_map(pws)[pws[i].user_id] == pws[i].hash@,
    decreases pws.len(),
{
    if i == pws.len() - 1 {
        assert(pws.last() == pws[i]);
    } else {
        assert(pws.last() == pws[pws.len() - 1]);
        assert(pws.last().user_id != pws[i].user_id);
        assert(pws.drop_last()[i] == pws[i]);
        assert forall|k: int| i < k < pws.drop_last().len() implies pws.drop_last()[k].user_id
            != pws.drop_last()[i].user_id by {
            assert(pws.drop_last()[k] == pws[k]);
        }
        lemma_pw_map_last_match(pws.drop_last(), i);
    }
}

/// Relies on uuid::Uuid::new_v4: a freshly generated random 128-bit
/// identifier, split into two 64-bit halves. Nothing is assumed of the value;
/// collision with an existing id is checked by the caller.
#[verifier::external_body]
fn fresh_user_id() -> (r: UserId) {
    let (hi, lo) = uuid::Uuid::new_v4().as_u64_pair();
    UserId { hi, lo }
}

fn clone_user(u: &User) -> (r: User)
    ensures
        r == *u,
{
    User { id: u.id, display_id: u.display_id.clone(), name: u.name.clone() }
}

impl Repository {
    /// The stored identity records, in insertion order.
    pub closed spec fn users_seq(self) -> Seq<User> {
        self.users@
    }

    /// The stored password records, in insertion order.
    pub closed spec fn passwords_seq(self) -> Seq<PasswordRecord> {
        self.passwords@
    }

    /// The configured password-hash cost factor.
    pub closed spec fn cost_spec(self) -> u32 {
        self.bcrypt_cost
    }

    /// The store's invariant: user ids and display ids are unique.
    pub open spec fn wf(self) -> bool {
        unique_users(self.users_seq())
    }

    pub fn new(bcrypt_cost: u32) -> (r: Repository)
        ensures
            r.wf(),
            r.users_seq() == Seq::<User>::empty(),
            r.passwords_seq() == Seq::<PasswordRecord>::empty(),
            r.cost_spec() == bcrypt_cost,
    {
        Repository { bcrypt_cost, users: Vec::new(), passwords: Vec::new() }
    }

    fn find_index_by_id(&self, id: UserId) -> (r: Option<usize>)
        ensures
            match r {
                Some(i) => i < self.users_seq().len() && self.users_seq()[i as int].id == id,
                None => !has_user_with_id(self.users_seq(), id),
            },
    {
        let n = self.users.len();
        let mut k: usize = 0;
        while k < n
            invariant
                n == self.users@.len(),
                k <= n,
                forall|j: int| 0 <= j < k ==> self.users@[j].id != id,
            decreases n - k,
        {
            let u = &self.users[k];
            if u.id == id {
                return Some(k);
            }
            k = k + 1;
        }
        None
    }

    fn find_index_by_display_id(&self, display_id: &String) -> (r: Option<usize>)
        ensures
            match r {
                Some(i) => i < self.users_seq().len() && self.users_seq()[i as int].display_id@
                    == display_id@,
                None => !has_user_with_display_id(self.users_seq(), display_id@),
            },
    {
        let n = self.users.len();
        let mut k: usize = 0;
        while k < n
            invariant
                n == self.users@.len(),
                k <= n,
                forall|j: int| 0 <= j < k ==> self.users@[j].display_id@ != display_id@,
            decreases n - k,
        {
            let u = &self.users[k];
            if u.display_id == *display_id {
                return Some(k);
            }
            k = k + 1;
        }
        None
    }

    fn find_last_password_index(&self, id: UserId) -> (r: Option<usize>)
        ensures
            match r {
                Some(i) => i < self.passwords_seq().len() && self.passwords_seq()[i as int].user_id
                    == id && forall|k: int|
                    i < k < self.passwords_seq().len() ==> self.passwords_seq()[k].user_id != id,
                None => forall|k: int|
                    0 <= k < self.passwords_seq().len() ==> self.passwords_seq()[k].user_id != id,
            },
    {
        let mut k: usize = self.passwords.len();
        while k > 0
            invariant
                k <= self.passwords@.len(),
                forall|j: int| k <= j < self.passwords@.len() ==> self.passwords@[j].user_id != id,
            decreases k,
        {
            k = k - 1;
            let rec = &self.passwords[k];
            if rec.user_id == id {
                return Some(k);
            }
        }
        None
    }

    /// Fetches every stored user.
    pub fn get_users(&self) -> (r: Vec<User>)
        ensures
            r@ == self.users_seq(),
    {
        let n = self.users.len();
        let mut out: Vec<User> = Vec::new();
        let mut k: usize = 0;
        while k < n
            invariant
                n == self.users@.len(),
                k <= n,
                out@ =~= self.users@.take(k as int),
            decreases n - k,
        {
            out.push(clone_user(&self.users[k]));
            assert(self.users@.take(k as int).push(self.users@[k as int]) =~= self.users@.take(
                k as int + 1,
            ));
            k = k + 1;
        }
        assert(out@ =~= self.users@);
        out
    }

    /// Fetches the user selected by `params`, or reports that none exists.
    pub fn get_user(&self, params: GetUserParams) -> (r: Result<User, Failure>)
        requires
            self.wf(),
        ensures
            match params {
                GetUserParams::ById(id) => match r {
                    Ok(u) => user_by_id(self.users_seq(), id) == Some(u),
                    Err(f) => user_by_id(self.users_seq(), id) is None && is_not_found(f)
                        && failure_message(f) == "User not found"@,
                },
                GetUserParams::ByDisplayId(d) => match r {
                    Ok(u) => user_by_display_id(self.users_seq(), d@) == Some(u),
                    Err(f) => user_by_display_id(self.users_seq(), d@) is None && is_not_found(f)
                        && failure_message(f) == "User not found"@,
                },
            },
    {
        let found = match &params {
            GetUserParams::ById(id) => self.find_index_by_id(*id),
            GetUserParams::ByDisplayId(d) => self.find_index_by_display_id(d),
        };
        match found {
            Some(i) => {
                proof {
                    match params {
                        GetUserParams::ById(_) => lemma_user_by_id_at(self.users@, i as int),
                        GetUserParams::ByDisplayId(_) => lemma_user_by_display_id_at(
                            self.users@,
                            i as int,
                        ),
                    }
                }
                Ok(clone_user(&self.users[i]))
            },
            None => Err(Failure::not_found("User not found")),
        }
    }

    /// Inserts a new identity record under the caller-supplied id. Fails with
    /// `Conflict` when the display id is taken and with an internal error when
    /// the id itself is already in use; on failure the store is unchanged.
    pub fn insert_user(&mut self, id: UserId, params: CreateUserParams) -> (r: Result<
        User,
        Failure,
    >)
        requires
            old(self).wf(),
        ensures
            final(self).wf(),
            final(self).cost_spec() == old(self).cost_spec(),
            final(self).passwords_seq() == old(self).passwords_seq(),
            has_user_with_display_id(old(self).users_seq(), params.display_id@) ==> (r matches Err(
                f,
            ) && is_conflict(f)),
            match r {
                Ok(u) => !has_user_with_display_id(old(self).users_seq(), params.display_id@)
                    && !has_user_with_id(old(self).users_seq(), id) && u.id == id && u.display_id@
                    == params.display_id@ && u.name@ == params.name@ && final(self).users_seq()
                    == old(self).users_seq().push(u),
                Err(f) => final(self).users_seq() == old(self).users_seq() && (is_conflict(f)
                    <==> has_user_with_display_id(old(self).users_seq(), params.display_id@)) && (
                is_conflict(f) ==> failure_message(f)
                    == "A user with the same display id already exists"@) && (!is_conflict(f)
                    ==> is_internal(f) && has_user_with_id(old(self).users_seq(), id)),
            },
    {
        if self.find_index_by_display_id(&params.display_id).is_some() {
            return Err(Failure::conflict("A user with the same display id already exists"));
        }
        if self.find_index_by_id(id).is_some() {
            return Err(Failure::internal("Failed to create user"));
        }
        let user = User { id, display_id: params.display_id, name: params.name };
        let result = clone_user(&user);
        proof {
            let users0 = self.users@;
            assert forall|i: int, j: int| 0 <= i < j < users0.push(user).len() implies users0.push(
                user,
            )[i].id != users0.push(user)[j].id && users0.push(user)[i].display_id@ != users0.push(
                user,
            )[j].display_id@ by {
                if j == users0.len() {
                    assert(users0.push(user)[i] == users0[i]);
                    assert(users0.push(user)[j] == user);
                    assert(!has_user_with_id(users0, id));
                    assert(!has_user_with_display_id(users0, user.display_id@));
                    if users0[i].id == user.id {
                        assert(has_user_with_id(users0, id));
                    }
                    if users0[i].display_id@ == user.display_id@ {
                        assert(has_user_with_display_id(users0, user.display_id@));
                    }
                } else {
                    assert(users0.push(user)[i] == users0[i]);
                    assert(users0.push(user)[j] == users0[j]);
                }
            }
        }
        self.users.push(user);
        Ok(result)
    }

    /// Creates a new identity record under a freshly generated id. The fresh
    /// id is random, so success is not owed: the (vanishingly unlikely) case
    /// of an id collision is an internal error, and `insert_user` carries the
    /// exact contract for any given id.
    pub fn create_user(&mut self, params: CreateUserParams) -> (r: Result<User, Failure>)
        requires
            old(self).wf(),
        ensures
            final(self).wf(),
            final(self).cost_spec() == old(self).cost_spec(),
            final(self).passwords_seq() == old(self).passwords_seq(),
            has_user_with_display_id(old(self).users_seq(), params.display_id@) ==> (r matches Err(
                f,
            ) && is_conflict(f)),
            match r {
                Ok(u) => !has_user_with_display_id(old(self).users_seq(), params.display_id@)
                    && !has_user_with_id(old(self).users_seq(), u.id) && u.display_id@
                    == params.display_id@ && u.name@ == params.name@ && final(self).users_seq()
                    == old(self).users_seq().push(u),
                Err(f) => final(self).users_seq() == old(self).users_seq() && (is_conflict(f)
                    <==> has_user_with_display_id(old(self).users_seq(), params.display_id@)) && (
                !is_conflict(f) ==> is_internal(f)),
            },
    {
        let id = fresh_user_id();
        self.insert_user(id, params)
    }

    /// Records `hashed` as the stored hash for `user_id`, superseding any
    /// earlier record for the same user.
    pub fn store_password_hash(&mut self, user_id: UserId, hashed: String)
        ensures
            final(self).users_seq() == old(self).users_seq(),
            final(self).cost_spec() == old(self).cost_spec(),
            password_of(final(self).passwords_seq(), user_id) == Some(hashed@),
            forall|other: UserId|
                other != user_id ==> password_of(final(self).passwords_seq(), other) == password_of(
                    old(self).passwords_seq(),
                    other,
                ),
    {
        let ghost p0 = self.passwords@;
        let ghost h = hashed@;
        self.passwords.push(PasswordRecord { user_id, hash: hashed });
        proof {
            let p1 = self.passwords@;
            assert(p1.drop_last() =~= p0);
            assert(p1.last().user_id == user_id && p1.last().hash@ == h);
            assert(pw_map(p1) == pw_map(p0).insert(user_id, h));
        }
    }

    /// Hashes the raw password and stores the result for `params.user_id`.
    /// Hashing happens first, so a hashing failure leaves the store unchanged.
    pub fn save_user_password(&mut self, params: SaveUserPasswordParams) -> (r: Result<
        (),
        Failure,
    >)
        ensures
            final(self).users_seq() == old(self).users_seq(),
            final(self).cost_spec() == old(self).cost_spec(),
            match r {
                Ok(_) => (match password_of(final(self).passwords_seq(), params.user_id) {
                    Some(h) => bcrypt_check(params.raw@, h) == Some(true),
                    None => false,
                }) && forall|other: UserId|
                    other != params.user_id ==> password_of(final(self).passwords_seq(), other)
                        == password_of(old(self).passwords_seq(), other),
                Err(f) => final(self).passwords_seq() == old(self).passwords_seq() && is_internal(
                    f,
                ),
            },
    {
        let hashed = match hasher::hash(params.raw.as_str(), self.bcrypt_cost) {
            Ok(h) => h,
            Err(f) => { return Err(f); },
        };
        self.store_password_hash(params.user_id, hashed);
        Ok(())
    }

    /// Checks the raw password against the hash stored for `params.user_id`.
    /// A missing record is `NotFound`; a malformed stored hash is an internal
    /// error, never a `false`.
    pub fn verify_user_password(&self, params: VerifyUserPasswordParams) -> (r: Result<
        bool,
        Failure,
    >)
        ensures
            ({
                let o = verify_password_spec(self.passwords_seq(), params.user_id, params.raw@);
                match r {
                    Ok(b) => o == Some(Some(b)),
                    Err(f) => match o {
                        None => is_not_found(f) && failure_message(f) == "password not found"@,
                        Some(inner) => inner is None && is_internal(f),
                    },
                }
            }),
    {
        match self.find_last_password_index(params.user_id) {
            None => {
                proof {
                    lemma_pw_map_absent(self.passwords@, params.user_id);
                }
                Err(Failure::not_found("password not found"))
            },
            Some(i) => {
                proof {
                    lemma_pw_map_last_match(self.passwords@, i as int);
                }
                hasher::verify(params.raw.as_str(), self.passwords[i].hash.as_str())
            },
        }
    }
}

impl BcryptConfig for Repository {
    fn bcrypt_cost(&self) -> u32 {
        self.bcrypt_cost
    }
}

} // verus!

//! The application context: one immutably-configured bundle of the store,
//! the credential codec, the registry and the route configuration, with the
//! transport-agnostic use cases — register, login, me, logout — on top of it.

use vstd::prelude::*;

use crate::entity::{
    Credential, GetUserParams, MakeCredentialParams, RegisterUserParams, User, UserId,
    VerifyUserPasswordParams,
};
use crate::error::{
    failure_message, is_conflict, is_internal, is_not_found, is_unauthorized, Failure,
};
use crate::hasher::bcrypt_check;
use crate::registry::Registry;
use crate::repository::{
    has_user_with_display_id, has_user_with_id, password_of, user_by_display_id, user_by_id,
    verify_password_spec, Repository,
};
use crate::router::{LoginUserRequest, RegisterUserRequest, RouteConfig};
use crate::token::{jwt_check_spec, now_seconds, token_claims, Jwt};

verus! {

/// Everything a `State` is built from.
pub struct StateInit {
    pub cookie_name: String,
    pub path_prefix: String,
    pub repo: Repository,
    pub jwt: Jwt,
}

/// The composed application context. Configuration is read-only after
/// construction; the store is the only mutable part.
pub struct State {
    cookie_name: String,
    path_prefix: String,
    repo: Repository,
    jwt: Jwt,
    registry: Registry,
}

impl State {
    /// The configured session cookie name.
    pub closed spec fn cookie_name_spec(self) -> Seq<char> {
        self.cookie_name@
    }

    /// The configured path prefix of the transport adapter.
    pub closed spec fn path_prefix_spec(self) -> Seq<char> {
        self.path_prefix@
    }

    /// The user store held by this context.
    pub closed spec fn repo_spec(self) -> Repository {
        self.repo
    }

    /// The credential codec held by this context.
    pub closed spec fn jwt_spec(self) -> Jwt {
        self.jwt
    }

    pub open spec fn wf(self) -> bool {
        self.repo_spec().wf()
    }

    pub fn new(init: StateInit) -> (r: State)
        requires
            init.repo.wf(),
        ensures
            r.wf(),
            r.cookie_name_spec() == init.cookie_name@,
            r.path_prefix_spec() == init.path_prefix@,
            r.repo_spec() == init.repo,
            r.jwt_spec() == init.jwt,
    {
        let StateInit { cookie_name, path_prefix, repo, jwt } = init;
        State { cookie_name, path_prefix, repo, jwt, registry: Registry::new() }
    }

    /// The register use case: creates the identity record and stores the
    /// password hash, or classifies the failure. A taken display id is a
    /// `Conflict`; on any failure the store is unchanged.
    pub fn register(&mut self, req: RegisterUserRequest) -> (r: Result<User, Failure>)
        requires
            old(self).wf(),
        ensures
            final(self).wf(),
            final(self).jwt_spec() == old(self).jwt_spec(),
            final(self).cookie_name_spec() == old(self).cookie_name_spec(),
            final(self).path_prefix_spec() == old(self).path_prefix_spec(),
            final(self).repo_spec().cost_spec() == old(self).repo_spec().cost_spec(),
            has_user_with_display_id(old(self).repo_spec().users_seq(), req.display_id@) ==> (
            r matches Err(f) && is_conflict(f)),
            match r {
                Ok(u) => {
                    &&& !has_user_with_display_id(
                        old(self).repo_spec().users_seq(),
                        req.display_id@,
                    )
                    &&& !has_user_with_id(old(self).repo_spec().users_seq(), u.id)
                    &&& u.display_id@ == req.display_id@
                    &&& u.name@ == req.name@
                    &&& final(self).repo_spec().users_seq() == old(
                        self,
                    ).repo_spec().users_seq().push(u)
                    &&& match password_of(final(self).repo_spec().passwords_seq(), u.id) {
                        Some(h) => bcrypt_check(req.password@, h) == Some(true),
                        None => false,
                    }
                    &&& forall|other: UserId|
                        other != u.id ==> password_of(final(self).repo_spec().passwords_seq(), other)
                            == password_of(old(self).repo_spec().passwords_seq(), other)
                },
                Err(f) => {
                    &&& final(self).repo_spec().users_seq() == old(self).repo_spec().users_seq()
                    &&& final(self).repo_spec().passwords_seq() == old(
                        self,
                    ).repo_spec().passwords_seq()
                    &&& (is_conflict(f) <==> has_user_with_display_id(
                        old(self).repo_spec().users_seq(),
                        req.display_id@,
                    ))
                    &&& (!is_conflict(f) ==> is_internal(f))
                },
            },
    {
        let registry = self.registry;
        registry.register_user(
            &mut self.repo,
            RegisterUserParams {
                display_id: req.display_id,
                name: req.name,
                raw_password: req.password,
            },
        )
    }

    /// The login use case as of time `now`: resolves the login handle,
    /// checks the password, and issues a credential. An unknown handle is
    /// `NotFound`, a wrong password is `Unauthorized`; a correct login is
    /// owed its credential whenever the expiry fits in the timestamp type.
    pub fn login_at(&self, req: LoginUserRequest, now: u64) -> (r: Result<Credential, Failure>)
        requires
            self.wf(),
        ensures
            (match user_by_display_id(self.repo_spec().users_seq(), req.display_id@) {
                Some(u) => (verify_password_spec(
                    self.repo_spec().passwords_seq(),
                    u.id,
                    req.password@,
                ) == Some(Some(true)) && now + self.jwt_spec().lifetime_spec() <= u64::MAX)
                    ==> r is Ok,
                None => true,
            }),
            ({
                let users = self.repo_spec().users_seq();
                let pws = self.repo_spec().passwords_seq();
                match r {
                    Ok(c) => (match user_by_display_id(users, req.display_id@) {
                        Some(u) => verify_password_spec(pws, u.id, req.password@) == Some(
                            Some(true),
                        ) && now + self.jwt_spec().lifetime_spec() <= u64::MAX && token_claims(
                            c.0@,
                            self.jwt_spec().key_spec(),
                        ) == Some(
                            (
                                now,
                                (now + self.jwt_spec().lifetime_spec()) as u64,
                                self.jwt_spec().issuer_spec(),
                                u.id.hi,
                                u.id.lo,
                            ),
                        ) && c.0@.len() > 0,
                        None => false,
                    }),
                    Err(f) => (match user_by_display_id(users, req.display_id@) {
                        None => is_not_found(f),
                        Some(u) => {
                            let o = verify_password_spec(pws, u.id, req.password@);
                            ||| is_unauthorized(f) && o == Some(Some(false)) && failure_message(f)
                                == "unauthorized"@
                            ||| is_not_found(f) && o is None
                            ||| is_internal(f) && o != Some(Some(false)) && o is Some
                        },
                    }),
                }
            }),
    {
        let user = match self.registry.get_user(
            &self.repo,
            GetUserParams::ByDisplayId(req.display_id),
        ) {
            Ok(u) => u,
            Err(f) => { return Err(f); },
        };
        let verification = match self.registry.verify_user_password(
            &self.repo,
            VerifyUserPasswordParams { user_id: user.id, raw: req.password },
        ) {
            Ok(b) => b,
            Err(f) => { return Err(f); },
        };
        if !verification {
            return Err(Failure::unauthorized("unauthorized"));
        }
        self.jwt.make_credential_at(MakeCredentialParams { user_id: user.id }, now)
    }

    /// The login use case as of the current time.
    pub fn login(&self, req: LoginUserRequest) -> (r: Result<Credential, Failure>)
        requires
            self.wf(),
        ensures
            ({
                let users = self.repo_spec().users_seq();
                let pws = self.repo_spec().passwords_seq();
                match r {
                    Ok(c) => (match user_by_display_id(users, req.display_id@) {
                        Some(u) => verify_password_spec(pws, u.id, req.password@) == Some(
                            Some(true),
                        ) && c.0@.len() > 0 && (match token_claims(
                            c.0@,
                            self.jwt_spec().key_spec(),
                        ) {
                            Some((iat, exp, iss, sub_hi, sub_lo)) => iss
                                == self.jwt_spec().issuer_spec() && sub_hi == u.id.hi && sub_lo
                                == u.id.lo && iat <= exp,
                            None => false,
                        }),
                        None => false,
                    }),
                    Err(f) => (match user_by_display_id(users, req.display_id@) {
                        None => is_not_found(f),
                        Some(u) => {
                            let o = verify_password_spec(pws, u.id, req.password@);
                            ||| is_unauthorized(f) && o == Some(Some(false))
                            ||| is_not_found(f) && o is None
                            ||| is_internal(f) && o != Some(Some(false)) && o is Some
                        },
                    }),
                }
            }),
    {
        let now = now_seconds();
        self.login_at(req, now)
    }

    /// The introspection use case as of time `now`: validates the credential
    /// and returns the user it identifies. An invalid or expired credential
    /// is `Unauthorized`; a valid credential whose subject no longer exists
    /// is `NotFound`.
    pub fn me_at(&self, credential: Credential, now: u64) -> (r: Result<User, Failure>)
        requires
            self.wf(),
        ensures
            ({
                let chk = jwt_check_spec(self.jwt_spec(), credential.0@, now);
                let users = self.repo_spec().users_seq();
                match r {
                    Ok(u) => (match chk {
                        Some(uid) => user_by_id(users, uid) == Some(u),
                        None => false,
                    }),
                    Err(f) => (match chk {
                        None => is_unauthorized(f),
                        Some(uid) => is_not_found(f) && user_by_id(users, uid) is None,
                    }),
                }
            }),
    {
        let uid = match self.jwt.check_credential_at(credential, now) {
            Ok(u) => u,
            Err(f) => { return Err(f); },
        };
        self.registry.get_user(&self.repo, GetUserParams::ById(uid))
    }

    /// The introspection use case as of the current time.
    pub fn me(&self, credential: Credential) -> (r: Result<User, Failure>)
        requires
            self.wf(),
        ensures
            match r {
                Ok(u) => (match token_claims(credential.0@, self.jwt_spec().key_spec()) {
                    Some((iat, exp, iss, sub_hi, sub_lo)) => iss == self.jwt_spec().issuer_spec()
                        && user_by_id(self.repo_spec().users_seq(), (UserId { hi: sub_hi, lo: sub_lo }))
                        == Some(u),
                    None => false,
                }),
                Err(f) => is_unauthorized(f) || is_not_found(f),
            },
            token_claims(credential.0@, self.jwt_spec().key_spec()) is None ==> r is Err,
    {
        let now = now_seconds();
        self.me_at(credential, now)
    }

    /// The logout use case. Credentials are stateless and revocation is a
    /// documented no-op (see the credential codec), so logging out always
    /// succeeds and amounts to the client discarding its credential.
    pub fn logout(&self, credential: Credential) -> (r: Result<(), Failure>)
        ensures
            r is Ok,
    {
        self.jwt.revoke_credential(credential)
    }

    /// Fetches the user selected by `params`.
    pub fn get_user(&self, params: GetUserParams) -> (r: Result<User, Failure>)
        requires
            self.wf(),
        ensures
            match params {
                GetUserParams::ById(id) => match r {
                    Ok(u) => user_by_id(self.repo_spec().users_seq(), id) == Some(u),
                    Err(f) => user_by_id(self.repo_spec().users_seq(), id) is None && is_not_found(
                        f,
                    ),
                },
                GetUserParams::ByDisplayId(d) => match r {
                    Ok(u) => user_by_display_id(self.repo_spec().users_seq(), d@) == Some(u),
                    Err(f) => user_by_display_id(self.repo_spec().users_seq(), d@) is None
                        && is_not_found(f),
                },
            },
    {
        self.registry.get_user(&self.repo, params)
    }

    /// Fetches every registered user. No order is guaranteed to callers.
    pub fn get_users(&self) -> (r: Vec<User>)
        ensures
            r@ == self.repo_spec().users_seq(),
    {
        self.registry.get_users(&self.repo)
    }
}

impl RouteConfig for State {
    fn cookie_name(&self) -> &str {
        self.cookie_name.as_str()
    }

    fn path_prefix(&self) -> &str {
        self.path_prefix.as_str()
    }
}

} // verus!

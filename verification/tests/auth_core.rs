//! Scenario tests for the authentication core, run against the in-memory
//! store with the real bcrypt and JWT backends linked.

use login_with_axum::entity::{
    Credential, GetUserParams, MakeCredentialParams, UserId, VerifyUserPasswordParams,
};
use login_with_axum::error::{Failure, RejectKind};
use login_with_axum::provide::{State, StateInit};
use login_with_axum::registry::Registry;
use login_with_axum::repository::Repository;
use login_with_axum::router::{LoginUserRequest, RegisterUserRequest};
use login_with_axum::token::Jwt;

// The minimum bcrypt cost keeps the hashing in tests fast.
const TEST_COST: u32 = 4;

fn test_jwt(lifetime: u64) -> Jwt {
    Jwt::builder().key("test-signing-key").issuer("login-with-axum").lifetime(lifetime).build()
}

fn test_state() -> State {
    State::new(StateInit {
        cookie_name: "ax_session".to_string(),
        path_prefix: "/".to_string(),
        repo: Repository::new(TEST_COST),
        jwt: test_jwt(86400),
    })
}

fn register_req(display_id: &str, name: &str, password: &str) -> RegisterUserRequest {
    RegisterUserRequest {
        display_id: display_id.to_string(),
        name: name.to_string(),
        password: password.to_string(),
    }
}

fn kind_of(f: &Failure) -> Option<RejectKind> {
    match f {
        Failure::Reject(r) => Some(r.kind),
        Failure::Error(_) => None,
    }
}

#[test]
fn credential_round_trip() {
    let jwt = test_jwt(3600);
    let uid = UserId { hi: 7, lo: 42 };
    let cred = jwt.make_credential(MakeCredentialParams { user_id: uid }).unwrap();
    assert!(!cred.0.is_empty());
    let got = jwt.check_credential(cred).unwrap();
    assert_eq!(got, uid);
}

#[test]
fn credential_expiry_boundary() {
    let jwt = test_jwt(10);
    let uid = UserId { hi: 1, lo: 2 };
    // Issued as of second 1000, so the expiry claim is second 1010.
    let cred = jwt.make_credential_at(MakeCredentialParams { user_id: uid }, 1000).unwrap();
    assert_eq!(jwt.check_credential_at(cred.clone(), 1009).unwrap(), uid);
    assert!(jwt.check_credential_at(cred.clone(), 1010).is_err());
    assert!(jwt.check_credential_at(cred, 2000).is_err());
}

#[test]
fn credential_issued_before_lifetime_window_is_rejected() {
    // A credential issued `lifetime + 1` seconds ago has just expired.
    let lifetime: u64 = 60;
    let jwt = test_jwt(lifetime);
    let uid = UserId { hi: 3, lo: 4 };
    let now: u64 = 1_000_000;
    let cred = jwt
        .make_credential_at(MakeCredentialParams { user_id: uid }, now - lifetime - 1)
        .unwrap();
    let err = jwt.check_credential_at(cred, now).unwrap_err();
    assert_eq!(kind_of(&err), Some(RejectKind::Unauthorized));
}

#[test]
fn credential_signature_tamper_sensitivity() {
    let jwt = test_jwt(3600);
    let uid = UserId { hi: 11, lo: 13 };
    let Credential(token) = jwt.make_credential(MakeCredentialParams { user_id: uid }).unwrap();
    let dot: usize = token.rfind('.').unwrap();
    let sig_start: usize = dot + 1;
    assert!(sig_start < token.len());
    for i in sig_start..token.len() {
        let mut bytes = token.as_bytes().to_vec();
        bytes[i] = if bytes[i] == b'A' { b'B' } else { b'A' };
        let tampered = String::from_utf8(bytes).unwrap();
        if tampered == token {
            continue;
        }
        assert!(
            jwt.check_credential(Credential(tampered)).is_err(),
            "tampered signature byte {} was accepted",
            i
        );
    }
}

#[test]
fn credential_wrong_key_is_rejected() {
    let jwt = test_jwt(3600);
    let other = Jwt::builder().key("another-key").issuer("login-with-axum").lifetime(3600).build();
    let uid = UserId { hi: 5, lo: 6 };
    let cred = jwt.make_credential(MakeCredentialParams { user_id: uid }).unwrap();
    assert!(other.check_credential(cred).is_err());
}

#[test]
fn credential_wrong_issuer_is_rejected() {
    let jwt = test_jwt(3600);
    let other = Jwt::builder().key("test-signing-key").issuer("someone-else").lifetime(3600).build();
    let uid = UserId { hi: 5, lo: 6 };
    let cred = jwt.make_credential(MakeCredentialParams { user_id: uid }).unwrap();
    assert!(other.check_credential(cred).is_err());
}

#[test]
fn credential_garbage_is_rejected() {
    let jwt = test_jwt(3600);
    assert!(jwt.check_credential(Credential("not-a-token".to_string())).is_err());
    assert!(jwt.check_credential(Credential(String::new())).is_err());
}

#[test]
fn password_round_trip() {
    let hashed = login_with_axum::hasher::hash("s3cret", TEST_COST).unwrap();
    assert_ne!(hashed, "s3cret");
    assert_eq!(hashed.len(), 60);
    assert_eq!(login_with_axum::hasher::verify("s3cret", &hashed).unwrap(), true);
    assert_eq!(login_with_axum::hasher::verify("wrong", &hashed).unwrap(), false);
}

#[test]
fn password_hash_malformed_is_error_not_false() {
    let err = login_with_axum::hasher::verify("anything", "not-a-bcrypt-hash").unwrap_err();
    assert!(matches!(err, Failure::Error(_)));
}

#[test]
fn register_duplicate_display_id_is_conflict() {
    let mut state = test_state();
    state.register(register_req("alice", "Alice", "s3cret")).unwrap();
    let err = state.register(register_req("alice", "Someone Else", "other")).unwrap_err();
    assert_eq!(kind_of(&err), Some(RejectKind::Conflict));
}

#[test]
fn verify_password_of_unknown_user_is_not_found() {
    let repo = Repository::new(TEST_COST);
    let registry = Registry::new();
    let err = registry
        .verify_user_password(
            &repo,
            VerifyUserPasswordParams {
                user_id: UserId { hi: 9, lo: 9 },
                raw: "x".to_string(),
            },
        )
        .unwrap_err();
    assert_eq!(kind_of(&err), Some(RejectKind::NotFound));
}

#[test]
fn register_then_get_by_display_id_returns_same_user() {
    let mut state = test_state();
    let user = state.register(register_req("alice", "Alice", "s3cret")).unwrap();
    assert_eq!(user.display_id, "alice");
    assert_eq!(user.name, "Alice");
    let fetched = state.get_user(GetUserParams::ByDisplayId("alice".to_string())).unwrap();
    assert_eq!(fetched.id, user.id);
    assert_eq!(fetched.display_id, "alice");
}

#[test]
fn login_returns_credential_and_me_returns_same_user() {
    let mut state = test_state();
    let user = state.register(register_req("alice", "Alice", "s3cret")).unwrap();
    let cred = state
        .login(LoginUserRequest { display_id: "alice".to_string(), password: "s3cret".to_string() })
        .unwrap();
    assert!(!cred.0.is_empty());
    let me = state.me(cred).unwrap();
    assert_eq!(me.id, user.id);
    assert_eq!(me.display_id, "alice");
    assert_eq!(me.name, "Alice");
}

#[test]
fn login_with_wrong_password_is_unauthorized() {
    let mut state = test_state();
    state.register(register_req("alice", "Alice", "s3cret")).unwrap();
    let err = state
        .login(LoginUserRequest { display_id: "alice".to_string(), password: "wrong".to_string() })
        .unwrap_err();
    assert_eq!(kind_of(&err), Some(RejectKind::Unauthorized));
}

#[test]
fn login_with_unknown_display_id_is_not_found() {
    let state = test_state();
    let err = state
        .login(LoginUserRequest { display_id: "nobody".to_string(), password: "x".to_string() })
        .unwrap_err();
    assert_eq!(kind_of(&err), Some(RejectKind::NotFound));
}

#[test]
fn logout_always_succeeds() {
    let state = test_state();
    assert!(state.logout(Credential("anything".to_string())).is_ok());
}

#[test]
fn fresh_registrations_get_distinct_ids() {
    let mut state = test_state();
    let a = state.register(register_req("alice", "Alice", "pw1")).unwrap();
    let b = state.register(register_req("bob", "Bob", "pw2")).unwrap();
    assert_ne!(a.id, b.id);
    let all = state.get_users();
    assert_eq!(all.len(), 2);
    assert!(all.iter().any(|u| u.id == a.id && u.display_id == "alice"));
    assert!(all.iter().any(|u| u.id == b.id && u.display_id == "bob"));
}

#[test]
fn update_password_supersedes_old_hash() {
    let mut repo = Repository::new(TEST_COST);
    let registry = Registry::new();
    let created = registry
        .register_user(
            &mut repo,
            login_with_axum::entity::RegisterUserParams {
                display_id: "carol".to_string(),
                name: "Carol".to_string(),
                raw_password: "first".to_string(),
            },
        )
        .unwrap();
    registry
        .update_user_password(
            &mut repo,
            login_with_axum::entity::UpdateUserPasswordParams {
                user_id: created.id,
                new_raw: "second".to_string(),
            },
        )
        .unwrap();
    let ok_new = registry
        .verify_user_password(
            &repo,
            VerifyUserPasswordParams { user_id: created.id, raw: "second".to_string() },
        )
        .unwrap();
    let ok_old = registry
        .verify_user_password(
            &repo,
            VerifyUserPasswordParams { user_id: created.id, raw: "first".to_string() },
        )
        .unwrap();
    assert!(ok_new);
    assert!(!ok_old);
}

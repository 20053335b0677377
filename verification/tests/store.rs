//! Tests exercising the user store directly: insertion under a given id,
//! conflict and collision handling, lookups, and password storage.

use login_with_axum::entity::{
    CreateUserParams, GetUserParams, SaveUserPasswordParams, UserId, VerifyUserPasswordParams,
};
use login_with_axum::error::{Failure, RejectKind};
use login_with_axum::repository::Repository;

fn create_params(display_id: &str, name: &str) -> CreateUserParams {
    CreateUserParams { display_id: display_id.to_string(), name: name.to_string() }
}

#[test]
fn insert_user_then_lookup_by_both_keys() {
    let mut repo = Repository::new(4);
    let id = UserId { hi: 1, lo: 100 };
    let user = repo.insert_user(id, create_params("dave", "Dave")).unwrap();
    assert_eq!(user.id, id);
    assert_eq!(user.display_id, "dave");
    assert_eq!(user.name, "Dave");

    let by_id = repo.get_user(GetUserParams::ById(id)).unwrap();
    assert_eq!(by_id.id, id);
    assert_eq!(by_id.display_id, "dave");

    let by_display = repo.get_user(GetUserParams::ByDisplayId("dave".to_string())).unwrap();
    assert_eq!(by_display.id, id);
}

#[test]
fn insert_user_with_taken_display_id_is_conflict() {
    let mut repo = Repository::new(4);
    repo.insert_user(UserId { hi: 1, lo: 1 }, create_params("erin", "Erin")).unwrap();
    let err = repo.insert_user(UserId { hi: 2, lo: 2 }, create_params("erin", "Other")).unwrap_err();
    match err {
        Failure::Reject(r) => {
            assert_eq!(r.kind(), RejectKind::Conflict);
            assert_eq!(r.message(), "A user with the same display id already exists");
        },
        Failure::Error(_) => panic!("expected a conflict rejection"),
    }
    // The failed insertion left the store unchanged.
    assert_eq!(repo.get_users().len(), 1);
}

#[test]
fn insert_user_with_taken_id_is_internal_error() {
    let mut repo = Repository::new(4);
    let id = UserId { hi: 3, lo: 3 };
    repo.insert_user(id, create_params("frank", "Frank")).unwrap();
    let err = repo.insert_user(id, create_params("grace", "Grace")).unwrap_err();
    assert!(matches!(err, Failure::Error(_)));
    assert_eq!(repo.get_users().len(), 1);
}

#[test]
fn get_user_missing_is_not_found() {
    let repo = Repository::new(4);
    let err = repo.get_user(GetUserParams::ById(UserId { hi: 0, lo: 0 })).unwrap_err();
    match err {
        Failure::Reject(r) => {
            assert_eq!(r.kind(), RejectKind::NotFound);
            assert_eq!(r.message(), "User not found");
        },
        Failure::Error(_) => panic!("expected a not-found rejection"),
    }
}

#[test]
fn save_then_verify_password_through_store() {
    let mut repo = Repository::new(4);
    let id = UserId { hi: 8, lo: 8 };
    repo.insert_user(id, create_params("heidi", "Heidi")).unwrap();
    repo.save_user_password(SaveUserPasswordParams { user_id: id, raw: "letmein".to_string() })
        .unwrap();
    let ok = repo
        .verify_user_password(VerifyUserPasswordParams { user_id: id, raw: "letmein".to_string() })
        .unwrap();
    assert!(ok);
    let wrong = repo
        .verify_user_password(VerifyUserPasswordParams { user_id: id, raw: "other".to_string() })
        .unwrap();
    assert!(!wrong);
}

#[test]
fn stored_hash_is_not_the_raw_password() {
    let mut repo = Repository::new(4);
    let id = UserId { hi: 9, lo: 1 };
    repo.insert_user(id, create_params("ivan", "Ivan")).unwrap();
    repo.save_user_password(SaveUserPasswordParams { user_id: id, raw: "plaintext".to_string() })
        .unwrap();
    // A verifier reading the raw password as if it were the hash must fail:
    // the stored value is a bcrypt hash, not the password itself.
    let err = login_with_axum::hasher::verify("plaintext", "plaintext").unwrap_err();
    assert!(matches!(err, Failure::Error(_)));
}

#[test]
fn create_user_assigns_fresh_ids() {
    let mut repo = Repository::new(4);
    let a = repo.create_user(create_params("judy", "Judy")).unwrap();
    let b = repo.create_user(create_params("karl", "Karl")).unwrap();
    assert_ne!(a.id, b.id);
    let all = repo.get_users();
    assert_eq!(all.len(), 2);
    assert!(all.iter().any(|u| u.display_id == "judy"));
    assert!(all.iter().any(|u| u.display_id == "karl"));
}

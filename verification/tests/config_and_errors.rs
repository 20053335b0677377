//! Tests for the failure taxonomy, its HTTP classification, and the two
//! step-by-step configuration builders.

use login_with_axum::error::{Failure, RejectKind};
use login_with_axum::options::ConnectOptions;
use login_with_axum::router::{ErrorResponse, ServeHtmlConf};

#[test]
fn failure_constructors_classify_and_keep_messages() {
    let cases = [
        (Failure::unauthorized("no entry"), RejectKind::Unauthorized, "no entry"),
        (Failure::bad_request("bad form"), RejectKind::BadRequest, "bad form"),
        (Failure::not_found("gone"), RejectKind::NotFound, "gone"),
        (Failure::conflict("taken"), RejectKind::Conflict, "taken"),
    ];
    for (failure, kind, message) in cases {
        match failure {
            Failure::Reject(r) => {
                assert_eq!(r.kind(), kind);
                assert_eq!(r.message(), message);
            },
            Failure::Error(_) => panic!("constructor produced an internal error"),
        }
    }
}

#[test]
fn internal_failure_is_opaque() {
    match Failure::internal("disk on fire") {
        Failure::Error(m) => assert_eq!(m, "disk on fire"),
        Failure::Reject(_) => panic!("internal constructor produced a rejection"),
    }
}

#[test]
fn status_codes_follow_the_classification() {
    assert_eq!(ErrorResponse::new(Failure::unauthorized("x")).status_code(), 401);
    assert_eq!(ErrorResponse::new(Failure::bad_request("x")).status_code(), 400);
    assert_eq!(ErrorResponse::new(Failure::not_found("x")).status_code(), 404);
    assert_eq!(ErrorResponse::new(Failure::conflict("x")).status_code(), 409);
    assert_eq!(ErrorResponse::new(Failure::internal("x")).status_code(), 500);
}

#[test]
fn connect_options_builder_carries_every_field() {
    let options = ConnectOptions::builder()
        .hostname("db.example")
        .port(3306)
        .username("app")
        .password("pw-123")
        .database("accounts")
        .build();
    assert_eq!(options.hostname, "db.example");
    assert_eq!(options.port, 3306);
    assert_eq!(options.username, "app");
    assert_eq!(options.password, "pw-123");
    assert_eq!(options.database, "accounts");
}

#[test]
fn connect_options_builder_order_does_not_matter() {
    let options = ConnectOptions::builder()
        .database("accounts")
        .password("pw")
        .username("app")
        .port(13306)
        .hostname("localhost")
        .build();
    assert_eq!(options.hostname, "localhost");
    assert_eq!(options.port, 13306);
    assert_eq!(options.database, "accounts");
}

#[test]
fn serve_html_conf_keeps_prefix_and_path() {
    let conf = ServeHtmlConf::new("/app/", "./public/index.html");
    assert_eq!(conf.prefix, "/app/");
    assert_eq!(conf.path, "./public/index.html");
}

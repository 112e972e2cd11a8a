use auth_core::identity::{authenticate_at, Auth};
use auth_core::ownership::{require_owner, require_resource_owner};
use auth_core::service::{login, register, LoginRequest, RegisterRequest};
use auth_core::token::TokenCodec;

const NOW: u64 = 1_700_000_000;

fn codec() -> TokenCodec {
    TokenCodec::with_default_ttl(b"secret".to_vec())
}

#[test]
fn test_missing_authorization_header() {
    let e = authenticate_at(&codec(), None, NOW).expect_err("no header must be rejected");
    assert_eq!(e.status_code, 401);
    assert_eq!(e.message, "Unauthorized");
}

#[test]
fn test_bearer_garbage_rejected_generically() {
    let e = authenticate_at(&codec(), Some("Bearer garbage"), NOW)
        .expect_err("a garbage token must be rejected");
    assert_eq!(e.status_code, 401);
    assert_eq!(e.message, "Unauthorized");
}

#[test]
fn test_non_bearer_scheme_rejected() {
    let c = codec();
    let token = c.issue(7, NOW);
    let header = format!("Basic {}", token);
    let e = authenticate_at(&c, Some(&header), NOW).expect_err("only Bearer is accepted");
    assert_eq!(e.status_code, 401);
    assert_eq!(e.message, "Unauthorized");
}

#[test]
fn test_bearer_token_yields_identity() {
    let c = codec();
    let token = c.issue(7, NOW);
    let header = format!("Bearer {}", token);
    let auth = authenticate_at(&c, Some(&header), NOW).expect("a fresh token must authenticate");
    assert_eq!(auth, Auth { id: 7 });
}

#[test]
fn test_delete_of_foreign_resource_forbidden() {
    let owner_id: u128 = 1;
    let intruder = Auth { id: 2 };
    let e = require_resource_owner(Some(owner_id), intruder)
        .expect_err("only the owner may delete");
    assert_eq!(e.status_code, 403);
    assert_eq!(e.message, "Only the owner can delete this resource");
    assert!(require_resource_owner(Some(owner_id), Auth { id: 1 }).is_ok());
}

#[test]
fn test_absent_resource_not_found_before_forbidden() {
    let e = require_resource_owner(None, Auth { id: 2 })
        .expect_err("an absent resource is not found");
    assert_eq!(e.status_code, 404);
    assert_eq!(e.message, "Record not found");
    let e2 = require_resource_owner(None, Auth { id: 1 })
        .expect_err("an absent resource is not found");
    assert_eq!(e.status_code, e2.status_code);
    assert_eq!(e.message, e2.message);
}

#[test]
fn test_require_owner_equality() {
    assert!(require_owner(9, Auth { id: 9 }).is_ok());
    let e = require_owner(9, Auth { id: 8 }).expect_err("another identity is refused");
    assert_eq!(e.status_code, 403);
}

#[test]
fn test_auth() {
    // The register / login / profile flow, at the library's level: register,
    // register again with the email taken, log in, log in with a wrong
    // password, read the profile with the token, and read it without one.
    let c = codec();
    let req = RegisterRequest {
        name: "Auth".to_owned(),
        handle: "auth".to_owned(),
        email: "auth@mail.com".to_owned(),
        password: "password".to_owned(),
    };
    let account = register(&req, false).expect("Failed to register");

    let retaken = register(&req, true).expect_err("the email is now taken");
    assert_eq!(retaken.status_code, 422);
    assert_eq!(retaken.message, "email already taken");

    let creds = LoginRequest {
        email: "auth@mail.com".to_owned(),
        password: "password".to_owned(),
    };
    let jwt = login(&creds, Some(&account), &c, NOW).expect("Failed to login");

    let wrong = LoginRequest {
        email: "auth@mail.com".to_owned(),
        password: "wrong".to_owned(),
    };
    let e = login(&wrong, Some(&account), &c, NOW)
        .expect_err("Try to login with invalid credentials shouldn't work");
    assert_eq!(e.status_code, 401);

    let header = format!("Bearer {}", jwt.token);
    let auth = authenticate_at(&c, Some(&header), NOW).expect("Failed to load loggedIn user");
    assert_eq!(auth.id, account.id, "Profile fetches wrong user");

    let e = authenticate_at(&c, None, NOW).expect_err("This routes should be protected");
    assert_eq!(e.status_code, 401);
}

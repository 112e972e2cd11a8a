use auth_core::service::{login, register, LoginRequest, RegisterRequest};
use auth_core::token::TokenCodec;

const NOW: u64 = 1_700_000_000;

fn codec() -> TokenCodec {
    TokenCodec::with_default_ttl(b"secret".to_vec())
}

fn registered() -> auth_core::service::Account {
    let req = RegisterRequest {
        name: "Auth".to_owned(),
        handle: "auth".to_owned(),
        email: "auth@mail.com".to_owned(),
        password: "password".to_owned(),
    };
    register(&req, false).expect("registration failed")
}

fn credentials(email: &str, password: &str) -> LoginRequest {
    LoginRequest {
        email: email.to_owned(),
        password: password.to_owned(),
    }
}

#[test]
fn test_login_success_issues_validating_token() {
    let c = codec();
    let account = registered();
    let creds = credentials("auth@mail.com", "password");
    let web_token = login(&creds, Some(&account), &c, NOW).expect("login failed");
    assert_eq!(c.validate(&web_token.token, NOW), Ok(account.id));
}

#[test]
fn test_login_unknown_email_and_wrong_password_identical() {
    let c = codec();
    let account = registered();

    let unknown = credentials("nobody@mail.com", "password");
    let e1 = login(&unknown, None, &c, NOW).expect_err("unknown email must be rejected");

    let wrong = credentials("auth@mail.com", "wrong-password");
    let e2 = login(&wrong, Some(&account), &c, NOW).expect_err("wrong password must be rejected");

    assert_eq!(e1.status_code, e2.status_code);
    assert_eq!(e1.message, e2.message);
    assert_eq!(e1.status_code, 401);
    assert_eq!(e1.message, "Credentials not valid!");
}

#[test]
fn test_login_corrupt_stored_hash_same_rejection() {
    let c = codec();
    let mut account = registered();
    account.password_hash = "corrupted".to_owned();
    let creds = credentials("auth@mail.com", "password");
    let e = login(&creds, Some(&account), &c, NOW).expect_err("a corrupt hash must reject");
    assert_eq!(e.status_code, 401);
    assert_eq!(e.message, "Credentials not valid!");
}

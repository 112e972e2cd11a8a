use auth_core::service::{register, RegisterRequest};

fn request() -> RegisterRequest {
    RegisterRequest {
        name: "Auth".to_owned(),
        handle: "auth".to_owned(),
        email: "auth@mail.com".to_owned(),
        password: "password".to_owned(),
    }
}

#[test]
fn test_register_ok() {
    let account = register(&request(), false).expect("registration failed");
    assert_eq!(account.name, "Auth");
    assert_eq!(account.handle, "auth");
    assert_eq!(account.email, "auth@mail.com");
    assert_ne!(account.password_hash, "password");
}

#[test]
fn test_register_duplicate_email() {
    let e = register(&request(), true).expect_err("a taken email must be refused");
    assert_eq!(e.status_code, 422);
    assert_eq!(e.message, "email already taken");
}

#[test]
fn test_register_short_name() {
    let mut req = request();
    req.name = "Al".to_owned();
    let e = register(&req, false).expect_err("a two-letter name must be refused");
    assert_eq!(e.status_code, 422);
    assert_eq!(e.message, "name is required and must be at least 3 characters");
}

#[test]
fn test_register_short_handle() {
    let mut req = request();
    req.handle = "al".to_owned();
    let e = register(&req, false).expect_err("a two-letter handle must be refused");
    assert_eq!(e.status_code, 422);
    assert_eq!(
        e.message,
        "handle is required and must be at least 3 characters"
    );
}

#[test]
fn test_register_invalid_email() {
    let mut req = request();
    req.email = "not-an-email".to_owned();
    let e = register(&req, false).expect_err("a malformed email must be refused");
    assert_eq!(e.status_code, 422);
    assert_eq!(e.message, "email is required and must be valid email");

    let mut req = request();
    req.email = "".to_owned();
    let e = register(&req, false).expect_err("an empty email must be refused");
    assert_eq!(e.status_code, 422);
    assert_eq!(e.message, "email is required and must be valid email");
}

#[test]
fn test_register_short_password() {
    let mut req = request();
    req.password = "short".to_owned();
    let e = register(&req, false).expect_err("a seven-letter password must be refused");
    assert_eq!(e.status_code, 422);
    assert_eq!(
        e.message,
        "password is required and must be at least 8 characters"
    );
}

#[test]
fn test_validation_checks_fields_in_order() {
    let req = RegisterRequest {
        name: "".to_owned(),
        handle: "".to_owned(),
        email: "".to_owned(),
        password: "".to_owned(),
    };
    let e = req.validate().expect_err("an empty request must be refused");
    assert_eq!(e.status_code, 422);
    assert_eq!(e.message, "name is required and must be at least 3 characters");
}

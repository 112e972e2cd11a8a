use auth_core::hasher::{hash_password, verify_password};

#[test]
fn test_hash_verifies_correct_password() {
    let hash = hash_password("password1").expect("hashing failed");
    assert_eq!(verify_password(&hash, "password1"), Ok(true));
}

#[test]
fn test_hash_rejects_wrong_password() {
    let hash = hash_password("password1").expect("hashing failed");
    assert_eq!(verify_password(&hash, "password2"), Ok(false));
    assert_eq!(verify_password(&hash, ""), Ok(false));
}

#[test]
fn test_hash_never_equals_plaintext() {
    let hash = hash_password("password1").expect("hashing failed");
    assert_ne!(hash, "password1");
}

#[test]
fn test_hash_salt_randomness() {
    let h1 = hash_password("password1").expect("hashing failed");
    let h2 = hash_password("password1").expect("hashing failed");
    assert_ne!(h1, h2, "two hashes of one password must differ by salt");
    assert_eq!(verify_password(&h1, "password1"), Ok(true));
    assert_eq!(verify_password(&h2, "password1"), Ok(true));
}

#[test]
fn test_verify_malformed_stored_hash_errors() {
    let r = verify_password("not an encoded hash", "password1");
    let e = r.expect_err("a corrupt stored hash must be an error, not a mismatch");
    assert_eq!(e.status_code, 500);
    assert_eq!(e.message, "Failed to verify password");
}

#[test]
fn test_empty_password_hashes_and_verifies() {
    let hash = hash_password("").expect("hashing failed");
    assert_eq!(verify_password(&hash, ""), Ok(true));
    assert_eq!(verify_password(&hash, "x"), Ok(false));
}

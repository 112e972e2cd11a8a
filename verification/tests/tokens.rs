use auth_core::errors::TokenError;
use auth_core::identity::Auth;
use auth_core::token::{current_timestamp, generate_jwt, validate_jwt, TokenCodec, DAY_SECONDS};

fn codec() -> TokenCodec {
    TokenCodec::with_default_ttl(b"secret".to_vec())
}

#[test]
fn test_issue_validate_round_trip() {
    let c = codec();
    let id: u128 = 0x0123_4567_89ab_cdef_0123_4567_89ab_cdef;
    let now: u64 = 1_700_000_000;
    let token = c.issue(id, now);
    assert_eq!(c.validate(&token, now), Ok(id));
    assert_eq!(c.validate(&token, now + DAY_SECONDS - 1), Ok(id));
}

#[test]
fn test_round_trip_edge_ids() {
    let c = codec();
    let now: u64 = 1_700_000_000;
    for id in [0u128, 1, u128::MAX] {
        let token = c.issue(id, now);
        assert_eq!(c.validate(&token, now), Ok(id));
    }
}

#[test]
fn test_expired_token() {
    let c = codec();
    let now: u64 = 1_700_000_000;
    let token = c.issue(7, now);
    assert_eq!(
        c.validate(&token, now + DAY_SECONDS),
        Err(TokenError::Expired)
    );
    assert_eq!(
        c.validate(&token, now + 10 * DAY_SECONDS),
        Err(TokenError::Expired)
    );
}

#[test]
fn test_tampered_signature() {
    let c = codec();
    let now: u64 = 1_700_000_000;
    let mut token = c.issue(7, now);
    let last = token.pop().expect("token is never empty");
    let flipped = if last == 'A' { 'B' } else { 'A' };
    token.push(flipped);
    assert_eq!(c.validate(&token, now), Err(TokenError::InvalidSignature));
}

#[test]
fn test_wrong_secret_rejected() {
    let c = codec();
    let other = TokenCodec::with_default_ttl(b"rotated".to_vec());
    let now: u64 = 1_700_000_000;
    let token = c.issue(7, now);
    assert_eq!(
        other.validate(&token, now),
        Err(TokenError::InvalidSignature)
    );
}

#[test]
fn test_malformed_tokens() {
    let c = codec();
    let now: u64 = 1_700_000_000;
    assert_eq!(c.validate("", now), Err(TokenError::Malformed));
    assert_eq!(c.validate("garbage", now), Err(TokenError::Malformed));
    let no_hex = "g".repeat(80);
    assert_eq!(c.validate(&no_hex, now), Err(TokenError::Malformed));
}

#[test]
fn test_generate_and_validate_jwt() {
    let c = codec();
    let issued = generate_jwt(&c, Auth { id: 42 }).expect("issuing failed");
    let auth = validate_jwt(&c, &issued.token).expect("fresh token must validate");
    assert_eq!(auth, Auth { id: 42 });
}

#[test]
fn test_validate_jwt_error_messages() {
    let c = codec();
    let e = validate_jwt(&c, "garbage").expect_err("garbage must not validate");
    assert_eq!(e.status_code, 401);
    assert_eq!(e.message, "Invalid authentication token");

    let now = current_timestamp();
    let expired = c.issue(42, now.saturating_sub(2 * DAY_SECONDS));
    let e = validate_jwt(&c, &expired).expect_err("an old token must not validate");
    assert_eq!(e.status_code, 401);
    assert_eq!(e.message, "JWT signature is expired");
}

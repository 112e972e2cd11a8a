//! Signed, time-limited identity tokens.
//!
//! A token is one opaque string: the claims (subject id, issue time, expiry
//! time, each as fixed-width hex) joined by dots, then a dot and the MAC of
//! the claims under the codec's secret. Validity is computed, never looked
//! up: a token is valid exactly when its signature matches the claims under
//! the current secret and the current time is strictly before its expiry.

use vstd::prelude::*;

use crate::errors::{ApiError, TokenError};
use crate::hex::{
    all_hex, encode_hex, hex_str, hex_val, lemma_hex_str_all_hex, lemma_hex_str_len,
    lemma_hex_val_bound, lemma_hex_val_of_hex_str, lemma_pow16_16_value, lemma_pow16_32_value,
    parse_hex,
};
use crate::identity::Auth;
use vstd::string::{StrSliceExecFns, StringExecFns};

verus! {

/// Token lifetime used when none is chosen: 24 hours, in seconds.
pub const DAY_SECONDS: u64 = 86400;

/// The claim fields carried inside a token before signing.
#[derive(Clone, Copy, Debug, PartialEq, Eq, Structural)]
pub struct Claims {
    /// The subject: the account id the token proves.
    pub id: u128,
    /// Seconds since the epoch when the token was issued.
    pub iat: u64,
    /// Seconds since the epoch when the token stops being valid.
    pub exp: u64,
}

/// A freshly issued token, ready to hand to the client.
#[derive(Clone, Debug)]
pub struct WebToken {
    pub token: String,
}

/// What jsonwebtoken's HMAC-SHA512 signing returns for a secret and message:
/// the unpadded base64url encoding of the tag. A pure function of both.
pub uninterp spec fn hs512_signature(secret: Seq<u8>, message: Seq<char>) -> Seq<char>;

/// Relies on jsonwebtoken::crypto::sign with HS512: returns the unpadded
/// base64url encoding of the HMAC-SHA512 tag of the message under the
/// secret, a pure function of the two; the HMAC path accepts keys of any
/// length and never fails.
#[verifier::external_body]
fn sign_hs512(secret: &[u8], message: &str) -> (sig: String)
    ensures
        sig@ == hs512_signature(secret@, message@),
{
    jsonwebtoken::crypto::sign(
        message.as_bytes(),
        &jsonwebtoken::EncodingKey::from_secret(secret),
        jsonwebtoken::Algorithm::HS512,
    ).unwrap()
}

/// Relies on jsonwebtoken::crypto::verify with HS512: it re-signs the message
/// and compares; decoding is strict (unpadded base64url, no trailing bits),
/// so it accepts exactly the canonical string sign returns, and a signature
/// that does not decode matches nothing.
#[verifier::external_body]
fn verify_hs512(signature: &str, message: &str, secret: &[u8]) -> (r: bool)
    ensures
        r == (signature@ == hs512_signature(secret@, message@)),
{
    match jsonwebtoken::crypto::verify(
        signature,
        message.as_bytes(),
        &jsonwebtoken::DecodingKey::from_secret(secret),
        jsonwebtoken::Algorithm::HS512,
    ) {
        Ok(b) => b,
        Err(_) => false,
    }
}

/// Relies on chrono::Utc::now: the wall clock, as seconds since the epoch.
#[verifier::external_body]
fn now_seconds() -> i64 {
    chrono::Utc::now().timestamp()
}

/// The wall clock as seconds since the epoch, clamped below at zero.
/// Nothing can be promised of its value.
pub fn current_timestamp() -> u64 {
    let s = now_seconds();
    if s < 0 {
        0
    } else {
        s as u64
    }
}

/// The claims rendered for signing: subject, issue time and expiry time as
/// fixed-width hex, joined by dots.
pub open spec fn claims_message(c: Claims) -> Seq<char> {
    hex_str(c.id as nat, 32) + seq!['.'] + hex_str(c.iat as nat, 16) + seq!['.'] + hex_str(
        c.exp as nat,
        16,
    )
}

/// The one opaque string a token is: claims, a dot, and their signature.
pub open spec fn spec_issue(secret: Seq<u8>, c: Claims) -> Seq<char> {
    claims_message(c) + seq!['.'] + hs512_signature(secret, claims_message(c))
}

/// Whether a string has the structure of a token: three dots in the fixed
/// places and hex digits in the three claim fields. The signature part is
/// whatever follows the third dot.
pub open spec fn token_shaped(t: Seq<char>) -> bool {
    &&& t.len() >= 67
    &&& t[32] == '.'
    &&& t[49] == '.'
    &&& t[66] == '.'
    &&& all_hex(t.subrange(0, 32))
    &&& all_hex(t.subrange(33, 49))
    &&& all_hex(t.subrange(50, 66))
}

/// The claims part of a shaped token: everything before the third dot.
pub open spec fn token_claims(t: Seq<char>) -> Seq<char> {
    t.subrange(0, 66)
}

/// The claim fields a shaped token carries.
pub open spec fn token_claims_value(t: Seq<char>) -> Claims {
    Claims {
        id: hex_val(t.subrange(0, 32)) as u128,
        iat: hex_val(t.subrange(33, 49)) as u64,
        exp: hex_val(t.subrange(50, 66)) as u64,
    }
}

/// The signature part of a shaped token: everything after the third dot.
pub open spec fn token_sig(t: Seq<char>) -> Seq<char> {
    t.subrange(67, t.len() as int)
}

/// The outcome of validating a token string at time `now` under a secret:
/// malformed unless it is shaped, rejected unless the signature matches the
/// claims, expired unless `now` is strictly before the expiry time, and
/// otherwise the subject id.
pub open spec fn spec_validate(secret: Seq<u8>, t: Seq<char>, now: u64) -> Result<u128, TokenError> {
    if !token_shaped(t) {
        Err(TokenError::Malformed)
    } else if token_sig(t) != hs512_signature(secret, token_claims(t)) {
        Err(TokenError::InvalidSignature)
    } else if now >= token_claims_value(t).exp {
        Err(TokenError::Expired)
    } else {
        Ok(token_claims_value(t).id)
    }
}

/// Encodes and decodes signed identity tokens with expiry. The secret and
/// the lifetime are injected at construction; the codec holds no other
/// state.
pub struct TokenCodec {
    pub secret: Vec<u8>,
    pub ttl_seconds: u64,
}

impl TokenCodec {
    pub fn new(secret: Vec<u8>, ttl_seconds: u64) -> (c: TokenCodec)
        ensures
            c.secret == secret,
            c.ttl_seconds == ttl_seconds,
    {
        TokenCodec { secret, ttl_seconds }
    }

    /// A codec with the default 24-hour lifetime.
    pub fn with_default_ttl(secret: Vec<u8>) -> (c: TokenCodec)
        ensures
            c.secret == secret,
            c.ttl_seconds == DAY_SECONDS,
    {
        TokenCodec { secret, ttl_seconds: DAY_SECONDS }
    }

    /// Issues a token for `id` at time `now`, expiring `ttl_seconds` later.
    /// Deterministic given subject and clock.
    pub fn issue(&self, id: u128, now: u64) -> (t: String)
        requires
            now + self.ttl_seconds <= u64::MAX,
        ensures
            t@ == spec_issue(
                self.secret@,
                Claims { id, iat: now, exp: (now + self.ttl_seconds) as u64 },
            ),
    {
        let exp: u64 = now + self.ttl_seconds;
        let ghost c = Claims { id, iat: now, exp };
        proof {
            lemma_pow16_32_value();
            lemma_pow16_16_value();
        }
        let mut msg = encode_hex(id, 32);
        let iat_hex = encode_hex(now as u128, 16);
        let exp_hex = encode_hex(exp as u128, 16);
        msg.append(".");
        msg.append(iat_hex.as_str());
        msg.append(".");
        msg.append(exp_hex.as_str());
        proof {
            reveal_strlit(".");
            assert("."@ =~= seq!['.']);
            assert(msg@ =~= claims_message(c));
        }
        let sig = sign_hs512(self.secret.as_slice(), msg.as_str());
        let mut token = msg;
        token.append(".");
        token.append(sig.as_str());
        proof {
            assert(token@ =~= spec_issue(self.secret@, c));
        }
        token
    }

    /// Validates a token string at time `now`: parses it, checks the
    /// signature against the claims under the codec's secret, checks the
    /// expiry, and returns the subject id.
    pub fn validate(&self, token: &str, now: u64) -> (r: Result<u128, TokenError>)
        ensures
            r == spec_validate(self.secret@, token@, now),
    {
        let n = token.unicode_len();
        if n < 67 {
            return Err(TokenError::Malformed);
        }
        if token.get_char(32) != '.' || token.get_char(49) != '.' || token.get_char(66) != '.' {
            return Err(TokenError::Malformed);
        }
        let id = match parse_hex(token, 0, 32) {
            Some(v) => v,
            None => {
                return Err(TokenError::Malformed);
            },
        };
        match parse_hex(token, 33, 49) {
            Some(_) => {},
            None => {
                return Err(TokenError::Malformed);
            },
        }
        let exp_wide = match parse_hex(token, 50, 66) {
            Some(v) => v,
            None => {
                return Err(TokenError::Malformed);
            },
        };
        proof {
            lemma_hex_val_bound(token@.subrange(50, 66));
            lemma_pow16_16_value();
        }
        let exp: u64 = exp_wide as u64;
        let claims = token.substring_char(0, 66);
        let sig = token.substring_char(67, n);
        if !verify_hs512(sig, claims, self.secret.as_slice()) {
            return Err(TokenError::InvalidSignature);
        }
        if now >= exp {
            return Err(TokenError::Expired);
        }
        Ok(id)
    }
}

/// A token is valid — validation yields a subject — exactly when it is
/// shaped, its signature matches its claims under the current secret, and
/// the validation time is strictly before its expiry. Validity is computed
/// from the token alone; nothing is looked up.
pub proof fn lemma_token_validity(secret: Seq<u8>, t: Seq<char>, now: u64)
    ensures
        spec_validate(secret, t, now) is Ok <==> (token_shaped(t) && token_sig(t)
            == hs512_signature(secret, token_claims(t)) && now < token_claims_value(t).exp),
{
}

/// An issued token has the token shape, carries exactly the claims it was
/// built from, and its signature part is the claims' signature.
pub proof fn lemma_issued_token_shape(secret: Seq<u8>, c: Claims)
    ensures
        token_shaped(spec_issue(secret, c)),
        token_claims(spec_issue(secret, c)) == claims_message(c),
        token_claims_value(spec_issue(secret, c)) == c,
        token_sig(spec_issue(secret, c)) == hs512_signature(secret, claims_message(c)),
{
    let m = claims_message(c);
    let s = hs512_signature(secret, m);
    let t = spec_issue(secret, c);
    lemma_hex_str_len(c.id as nat, 32);
    lemma_hex_str_len(c.iat as nat, 16);
    lemma_hex_str_len(c.exp as nat, 16);
    lemma_hex_str_all_hex(c.id as nat, 32);
    lemma_hex_str_all_hex(c.iat as nat, 16);
    lemma_hex_str_all_hex(c.exp as nat, 16);
    assert(t.subrange(0, 32) =~= hex_str(c.id as nat, 32));
    assert(t.subrange(33, 49) =~= hex_str(c.iat as nat, 16));
    assert(t.subrange(50, 66) =~= hex_str(c.exp as nat, 16));
    assert(token_shaped(t));
    assert(token_claims(t) =~= m);
    assert(token_sig(t) =~= s);
    lemma_pow16_32_value();
    lemma_pow16_16_value();
    lemma_hex_val_of_hex_str(c.id as nat, 32);
    lemma_hex_val_of_hex_str(c.iat as nat, 16);
    lemma_hex_val_of_hex_str(c.exp as nat, 16);
    assert(token_claims_value(t) == c);
}

/// Issuing at `iat` and validating before the expiry returns the subject
/// unchanged: validation inverts issuance while the token is fresh.
pub proof fn lemma_validate_of_issue(secret: Seq<u8>, c: Claims, now: u64)
    requires
        now < c.exp,
    ensures
        spec_validate(secret, spec_issue(secret, c), now) == Ok::<u128, TokenError>(c.id),
{
    lemma_issued_token_shape(secret, c);
}

/// A token whose signature part is anything other than the claims' true
/// signature under the secret is rejected as tampered, never accepted and
/// never reported as merely expired.
pub proof fn lemma_tampered_signature_rejected(secret: Seq<u8>, t: Seq<char>, now: u64)
    requires
        token_shaped(t),
        token_sig(t) != hs512_signature(secret, token_claims(t)),
    ensures
        spec_validate(secret, t, now) == Err::<u128, TokenError>(TokenError::InvalidSignature),
{
}

/// Changing any one character of the signature part of a well-signed token
/// makes validation reject it as tampered, at every validation time.
pub proof fn lemma_one_char_signature_mutation_rejected(
    secret: Seq<u8>,
    t: Seq<char>,
    t2: Seq<char>,
    i: int,
    now: u64,
)
    requires
        token_shaped(t),
        token_sig(t) == hs512_signature(secret, token_claims(t)),
        t2.len() == t.len(),
        67 <= i < t.len(),
        t2[i] != t[i],
        forall|j: int| 0 <= j < t.len() && j != i ==> t2[j] == t[j],
    ensures
        spec_validate(secret, t2, now) == Err::<u128, TokenError>(TokenError::InvalidSignature),
{
    assert(t2.subrange(0, 32) =~= t.subrange(0, 32));
    assert(t2.subrange(33, 49) =~= t.subrange(33, 49));
    assert(t2.subrange(50, 66) =~= t.subrange(50, 66));
    assert(token_shaped(t2));
    assert(token_claims(t2) =~= token_claims(t));
    assert(token_sig(t2) != hs512_signature(secret, token_claims(t2))) by {
        assert(token_sig(t2)[i - 67] == t2[i]);
        assert(token_sig(t)[i - 67] == t[i]);
    }
}

/// A well-signed token validated at or after its expiry time is reported
/// expired, whatever its other claims say.
pub proof fn lemma_expired_token_rejected(secret: Seq<u8>, t: Seq<char>, now: u64)
    requires
        token_shaped(t),
        token_sig(t) == hs512_signature(secret, token_claims(t)),
        now >= token_claims_value(t).exp,
    ensures
        spec_validate(secret, t, now) == Err::<u128, TokenError>(TokenError::Expired),
{
}

/// The token issued for `id` at time `now` under a codec's secret and
/// lifetime, provided the expiry time fits.
pub open spec fn issued_token(secret: Seq<u8>, ttl_seconds: u64, id: u128, now: u64) -> Seq<char> {
    spec_issue(secret, Claims { id, iat: now, exp: (now + ttl_seconds) as u64 })
}

/// Builds the claims for `payload` at the current time and returns them
/// signed as one opaque token string. Fails only when the expiry time would
/// not fit, and then with the fixed internal error.
pub fn generate_jwt(codec: &TokenCodec, payload: Auth) -> (r: Result<WebToken, ApiError>)
    ensures
        r matches Ok(w) ==> exists|now: u64|
            now + codec.ttl_seconds <= u64::MAX && w.token@ == #[trigger] issued_token(
                codec.secret@,
                codec.ttl_seconds,
                payload.id,
                now,
            ),
        r matches Err(e) ==> e.status_code == 500 && e.message@ == "Unable to generate the JWT"@,
{
    let now = current_timestamp();
    if now > u64::MAX - codec.ttl_seconds {
        return Err(ApiError::new(500, "Unable to generate the JWT".to_owned()));
    }
    let token = codec.issue(payload.id, now);
    let w = WebToken { token };
    proof {
        assert(now + codec.ttl_seconds <= u64::MAX && w.token@ == issued_token(
            codec.secret@,
            codec.ttl_seconds,
            payload.id,
            now,
        ));
    }
    Ok(w)
}

/// How a raw validation outcome is reported to a client: the subject on
/// success, a 401 naming expiry where that is safe to disclose, and one
/// generic 401 for everything else.
pub open spec fn jwt_outcome(secret: Seq<u8>, t: Seq<char>, now: u64, r: Result<
    Auth,
    ApiError,
>) -> bool {
    match spec_validate(secret, t, now) {
        Ok(id) => r matches Ok(a) && a.id == id,
        Err(TokenError::Expired) => r matches Err(e) && e.status_code == 401 && e.message@
            == "JWT signature is expired"@,
        Err(_) => r matches Err(e) && e.status_code == 401 && e.message@
            == "Invalid authentication token"@,
    }
}

/// Validates a token string against the codec at the current time and maps
/// the outcome to a client-visible result. Expiry is named; a malformed
/// token and a bad signature share one generic message, so the reason is
/// never echoed back.
pub fn validate_jwt(codec: &TokenCodec, token: &str) -> (r: Result<Auth, ApiError>)
    ensures
        exists|now: u64| jwt_outcome(codec.secret@, token@, now, r),
{
    let now = current_timestamp();
    let r = match codec.validate(token, now) {
        Ok(id) => Ok(Auth { id }),
        Err(TokenError::Expired) => Err(
            ApiError::new(401, "JWT signature is expired".to_owned()),
        ),
        Err(_) => Err(ApiError::new(401, "Invalid authentication token".to_owned())),
    };
    proof {
        assert(jwt_outcome(codec.secret@, token@, now, r));
    }
    r
}

} // verus!

//! Registration and login.
//!
//! Registration validates the request shape, refuses an email that is
//! already taken, hashes the password and builds the account record for
//! the store to persist. Login looks at what the store found for the
//! public identifier and answers with a signed token on a true match —
//! and with one fixed, generic rejection on every failure path, so a
//! caller cannot tell an unknown email from a wrong password.

use vstd::prelude::*;

use crate::errors::ApiError;
use crate::hasher::{
    argon2_verifies, hash_password, well_formed_hash, MAX_PASSWORD_CHARS,
};
use crate::token::{spec_issue, Claims, TokenCodec, WebToken};
use vstd::string::StrSliceExecFns;

verus! {

/// What a client submits to register.
pub struct RegisterRequest {
    pub name: String,
    pub handle: String,
    pub email: String,
    pub password: String,
}

/// What a client submits to log in.
pub struct LoginRequest {
    pub email: String,
    pub password: String,
}

/// One authenticatable principal, as this core hands it to the store:
/// the password is already hashed and is never serialized back to a
/// client-facing representation.
#[derive(Clone, Debug)]
pub struct Account {
    pub id: u128,
    pub name: String,
    pub handle: String,
    pub email: String,
    pub password_hash: String,
}

impl Account {
    /// Whether `password` is this account's password: re-derives the hash
    /// described by the stored string and compares. A mismatch is a normal
    /// `false`; a stored string that is not a hash at all is an error.
    pub fn verify_password(&self, password: &str) -> (r: Result<bool, ApiError>)
        ensures
            r matches Ok(b) ==> b == argon2_verifies(self.password_hash@, password@),
            well_formed_hash(self.password_hash@) && password@.len() <= MAX_PASSWORD_CHARS
                ==> r is Ok,
            r matches Err(e) ==> e.status_code == 500 && e.message@
                == "Failed to verify password"@,
    {
        crate::hasher::verify_password(self.password_hash.as_str(), password)
    }
}

/// What validator's HTML5 email-shape check answers for a string. A pure
/// function of the string.
pub uninterp spec fn email_valid(s: Seq<char>) -> bool;

/// Relies on validator::ValidateEmail for str: the HTML5 email shape
/// check, a pure function of the string.
#[verifier::external_body]
fn check_email(s: &str) -> (r: bool)
    ensures
        r == email_valid(s@),
{
    validator::ValidateEmail::validate_email(&s)
}

/// Relies on uuid::Uuid::new_v4: a freshly generated random 128-bit
/// account id. Nothing can be promised of its value.
#[verifier::external_body]
fn new_account_id() -> u128 {
    uuid::Uuid::new_v4().as_u128()
}

impl RegisterRequest {
    /// The shape a registration must have: names of at least three
    /// characters, a syntactically valid email, a password of at least
    /// eight characters.
    pub open spec fn valid_spec(self) -> bool {
        &&& self.name@.len() >= 3
        &&& self.handle@.len() >= 3
        &&& email_valid(self.email@)
        &&& self.password@.len() >= 8
    }

    /// The message for the first constraint a request breaks, in field
    /// order.
    pub open spec fn violation_message(self) -> Seq<char> {
        if self.name@.len() < 3 {
            "name is required and must be at least 3 characters"@
        } else if self.handle@.len() < 3 {
            "handle is required and must be at least 3 characters"@
        } else if !email_valid(self.email@) {
            "email is required and must be valid email"@
        } else {
            "password is required and must be at least 8 characters"@
        }
    }

    /// Checks the request shape; a violation is reported as a 422 naming
    /// the first field that fails.
    pub fn validate(&self) -> (r: Result<(), ApiError>)
        ensures
            r is Ok <==> self.valid_spec(),
            r matches Err(e) ==> e.status_code == 422 && e.message@ == self.violation_message(),
    {
        if self.name.as_str().unicode_len() < 3 {
            return Err(
                ApiError::new(422, "name is required and must be at least 3 characters".to_owned()),
            );
        }
        if self.handle.as_str().unicode_len() < 3 {
            return Err(
                ApiError::new(
                    422,
                    "handle is required and must be at least 3 characters".to_owned(),
                ),
            );
        }
        if !check_email(self.email.as_str()) {
            return Err(
                ApiError::new(422, "email is required and must be valid email".to_owned()),
            );
        }
        if self.password.as_str().unicode_len() < 8 {
            return Err(
                ApiError::new(
                    422,
                    "password is required and must be at least 8 characters".to_owned(),
                ),
            );
        }
        Ok(())
    }
}

/// Registers a new principal. `email_taken` is what the store's uniqueness
/// lookup found for the requested email; the caller persists the returned
/// account, and a race lost at insertion surfaces from the store itself as
/// a conflict. On success the password is hashed, never kept.
pub fn register(req: &RegisterRequest, email_taken: bool) -> (r: Result<Account, ApiError>)
    ensures
        !req.valid_spec() ==> (r matches Err(e) && e.status_code == 422 && e.message@
            == req.violation_message()),
        req.valid_spec() && email_taken ==> (r matches Err(e) && e.status_code == 422
            && e.message@ == "email already taken"@),
        req.valid_spec() && !email_taken && req.password@.len() <= MAX_PASSWORD_CHARS ==> r is Ok,
        r matches Ok(a) ==> req.valid_spec() && !email_taken && a.name@ == req.name@ && a.handle@
            == req.handle@ && a.email@ == req.email@ && argon2_verifies(
            a.password_hash@,
            req.password@,
        ) && well_formed_hash(a.password_hash@),
        req.valid_spec() && !email_taken ==> (r matches Err(e) ==> e.status_code == 500
            && e.message@ == "Failed to hash password"@),
{
    match req.validate() {
        Ok(()) => {},
        Err(e) => {
            return Err(e);
        },
    }
    if email_taken {
        return Err(ApiError::new(422, "email already taken".to_owned()));
    }
    let password_hash = match hash_password(req.password.as_str()) {
        Ok(h) => h,
        Err(e) => {
            return Err(e);
        },
    };
    let id = new_account_id();
    Ok(
        Account {
            id,
            name: req.name.clone(),
            handle: req.handle.clone(),
            email: req.email.clone(),
            password_hash,
        },
    )
}

/// The one generic message every failed login gets.
pub open spec fn credentials_message() -> Seq<char> {
    "Credentials not valid!"@
}

/// Whether a login must be denied: no account carries the public
/// identifier, or the candidate password does not verify against the
/// stored hash.
pub open spec fn login_denied(account: Option<&Account>, password: Seq<char>) -> bool {
    match account {
        None => true,
        Some(a) => !argon2_verifies(a.password_hash@, password),
    }
}

/// A login answer that rejects with the one generic credentials error.
pub open spec fn denied_login_outcome(r: Result<WebToken, ApiError>) -> bool {
    r matches Err(e) && e.status_code == 401 && e.message@ == credentials_message()
}

/// Logs a principal in. `account` is what the store found for the public
/// identifier the client gave. Every failure — unknown identifier, wrong
/// password, or a stored hash too corrupt to check — is answered with the
/// same generic rejection; only a true match is answered with a token
/// issued for the account's id at time `now`.
pub fn login(credentials: &LoginRequest, account: Option<&Account>, codec: &TokenCodec, now: u64) -> (r:
    Result<WebToken, ApiError>)
    requires
        now + codec.ttl_seconds <= u64::MAX,
    ensures
        login_denied(account, credentials.password@) ==> denied_login_outcome(r),
        r matches Err(e) ==> e.status_code == 401 && e.message@ == credentials_message(),
        (account matches Some(a) && argon2_verifies(a.password_hash@, credentials.password@)
            && well_formed_hash(a.password_hash@) && credentials.password@.len()
            <= MAX_PASSWORD_CHARS) ==> r is Ok,
        r matches Ok(w) ==> account matches Some(a) && argon2_verifies(
            a.password_hash@,
            credentials.password@,
        ) && w.token@ == spec_issue(
            codec.secret@,
            Claims { id: a.id, iat: now, exp: (now + codec.ttl_seconds) as u64 },
        ),
{
    let a = match account {
        Some(a) => a,
        None => {
            return Err(ApiError::new(401, "Credentials not valid!".to_owned()));
        },
    };
    let is_valid = match a.verify_password(credentials.password.as_str()) {
        Ok(b) => b,
        Err(_) => {
            return Err(ApiError::new(401, "Credentials not valid!".to_owned()));
        },
    };
    if !is_valid {
        return Err(ApiError::new(401, "Credentials not valid!".to_owned()));
    }
    let token = codec.issue(a.id, now);
    Ok(WebToken { token })
}

/// Law: the rejection for an unknown identifier and the rejection for a
/// wrong password are byte-identical — status and message carry no trace
/// of which of the two happened.
pub proof fn lemma_login_rejection_uniform(r1: Result<WebToken, ApiError>, r2: Result<
    WebToken,
    ApiError,
>)
    requires
        denied_login_outcome(r1),
        denied_login_outcome(r2),
    ensures
        r1 matches Err(e1) && r2 matches Err(e2) && e1.status_code == e2.status_code && e1.message@
            == e2.message@,
{
}

} // verus!

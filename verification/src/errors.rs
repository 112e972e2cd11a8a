//! Error values that cross the boundary of the core.

use vstd::prelude::*;

verus! {

/// A client-visible error: an HTTP status code and a message body.
#[derive(Clone, Debug, PartialEq, Eq)]
pub struct ApiError {
    pub status_code: u16,
    pub message: String,
}

/// The status code a client sees for an error: the code itself where it is
/// a representable HTTP status, and an internal server error otherwise.
pub open spec fn client_status(code: u16) -> u16 {
    if 100 <= code <= 999 {
        code
    } else {
        500
    }
}

/// A persistence failure, as the store collaborator reports it: a unique
/// constraint broke, the record was absent, or something else went wrong.
#[derive(Clone, Debug)]
pub enum StoreError {
    /// A unique constraint broke; carries the store's message.
    Conflict(String),
    /// The record addressed does not exist.
    NotFound,
    /// Any other persistence failure; carries the store's message, which
    /// the boundary logs and never echoes to a client.
    Other(String),
}

impl ApiError {
    pub fn new(status_code: u16, message: String) -> (r: ApiError)
        ensures
            r.status_code == status_code,
            r.message == message,
    {
        ApiError { status_code, message }
    }

    /// The client-visible projection of this error: a status outside the
    /// representable HTTP range falls back to 500, and every 500-class
    /// failure has its message replaced by a fixed one, so internal detail
    /// is never echoed to a client. The boundary sends exactly this pair;
    /// the real message it may log server-side.
    pub fn client_view(&self) -> (r: (u16, String))
        ensures
            r.0 == client_status(self.status_code),
            r.0 < 500 ==> r.1@ == self.message@,
            r.0 >= 500 ==> r.1@ == "Internal server error"@,
    {
        let status: u16 = if 100 <= self.status_code && self.status_code <= 999 {
            self.status_code
        } else {
            500
        };
        let message = if status < 500 {
            self.message.clone()
        } else {
            "Internal server error".to_owned()
        };
        (status, message)
    }

    /// The client-visible form of a persistence failure: a broken unique
    /// constraint is a conflict, an absent record is not found, and
    /// anything else is an internal error whose detail stays server-side.
    pub fn from_store(e: StoreError) -> (r: ApiError)
        ensures
            e matches StoreError::Conflict(m) ==> r.status_code == 409 && r.message == m,
            e matches StoreError::NotFound ==> r.status_code == 404 && r.message@
                == "Record not found"@,
            e matches StoreError::Other(m) ==> r.status_code == 500 && r.message == m,
    {
        match e {
            StoreError::Conflict(m) => ApiError::new(409, m),
            StoreError::NotFound => ApiError::new(404, "Record not found".to_owned()),
            StoreError::Other(m) => ApiError::new(500, m),
        }
    }
}

/// Why a token was rejected. All three map to a 401 at the HTTP boundary.
#[derive(Clone, Copy, Debug, PartialEq, Eq, Structural)]
pub enum TokenError {
    /// The string does not have the shape of a token.
    Malformed,
    /// The signature does not match the claims under the current secret.
    InvalidSignature,
    /// The signature matches but the expiry time has passed.
    Expired,
}

} // verus!

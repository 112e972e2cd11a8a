//! Per-request identity extraction.
//!
//! A protected request proves who it comes from with an `Authorization`
//! header of the exact shape `Bearer <token>`. The extractor is a pure
//! gate: it reads the header value, validates the token, and either yields
//! the authenticated identity or rejects the request with a single generic
//! 401, whatever the reason was.

use vstd::prelude::*;

use crate::errors::ApiError;
use crate::token::{current_timestamp, spec_validate, TokenCodec};
use vstd::string::StrSliceExecFns;

verus! {

/// The authenticated principal attached to one request: the subject id of a
/// validated token. Never persisted; rebuilt fresh on every request.
#[derive(Clone, Copy, Debug, PartialEq, Eq, Structural)]
pub struct Auth {
    pub id: u128,
}

/// Whether a header value has the exact shape `Bearer <token>`.
pub open spec fn is_bearer(h: Seq<char>) -> bool {
    h.len() >= 7 && h[0] == 'B' && h[1] == 'e' && h[2] == 'a' && h[3] == 'r' && h[4] == 'e' && h[5]
        == 'r' && h[6] == ' '
}

/// The token carried by a `Bearer` header value.
pub open spec fn bearer_token(h: Seq<char>) -> Seq<char> {
    h.subrange(7, h.len() as int)
}

/// The header value as a sequence of characters, where one was sent.
pub open spec fn header_view(header: Option<&str>) -> Option<Seq<char>> {
    match header {
        Some(h) => Some(h@),
        None => None,
    }
}

/// The one answer a rejected request gets, whatever the reason was.
pub open spec fn is_unauthorized(r: Result<Auth, ApiError>) -> bool {
    r matches Err(e) && e.status_code == 401 && e.message@ == "Unauthorized"@
}

/// What identity extraction yields for a header value at time `now`: the
/// token's subject when the header is a `Bearer` carrying a valid token,
/// and one generic 401 otherwise — for a missing header, for any other
/// header shape, and for every way token validation can fail.
pub open spec fn extraction_outcome(
    secret: Seq<u8>,
    header: Option<Seq<char>>,
    now: u64,
    r: Result<Auth, ApiError>,
) -> bool {
    match header {
        None => is_unauthorized(r),
        Some(h) => if !is_bearer(h) {
            is_unauthorized(r)
        } else {
            match spec_validate(secret, bearer_token(h), now) {
                Ok(id) => r matches Ok(a) && a.id == id,
                Err(_) => is_unauthorized(r),
            }
        },
    }
}

/// Extracts the identity a request proves at time `now`. A pure gate with
/// no side effects: the header value either carries a `Bearer` token that
/// validates, or the request is rejected with one generic 401.
pub fn authenticate_at(codec: &TokenCodec, header: Option<&str>, now: u64) -> (r: Result<
    Auth,
    ApiError,
>)
    ensures
        extraction_outcome(codec.secret@, header_view(header), now, r),
{
    let h = match header {
        Some(h) => h,
        None => {
            return Err(ApiError::new(401, "Unauthorized".to_owned()));
        },
    };
    let n = h.unicode_len();
    if n < 7 {
        return Err(ApiError::new(401, "Unauthorized".to_owned()));
    }
    if h.get_char(0) != 'B' || h.get_char(1) != 'e' || h.get_char(2) != 'a' || h.get_char(3) != 'r'
        || h.get_char(4) != 'e' || h.get_char(5) != 'r' || h.get_char(6) != ' ' {
        return Err(ApiError::new(401, "Unauthorized".to_owned()));
    }
    let token = h.substring_char(7, n);
    match codec.validate(token, now) {
        Ok(id) => Ok(Auth { id }),
        Err(_) => Err(ApiError::new(401, "Unauthorized".to_owned())),
    }
}

/// Extracts the identity a request proves, read against the current time.
pub fn authenticate(codec: &TokenCodec, header: Option<&str>) -> (r: Result<Auth, ApiError>)
    ensures
        exists|now: u64| #[trigger] extraction_outcome(codec.secret@, header_view(header), now, r),
{
    let now = current_timestamp();
    let r = authenticate_at(codec, header, now);
    proof {
        assert(extraction_outcome(codec.secret@, header_view(header), now, r));
    }
    r
}

} // verus!

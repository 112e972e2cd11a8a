//! The ownership check used by mutating endpoints.
//!
//! A resource that carries an owner field may only be mutated by the
//! identity recorded as its owner. The check runs after the resource is
//! loaded, so an absent resource answers "not found" before ownership is
//! ever weighed — a request never learns through differing error codes
//! that somebody else's resource exists.

use vstd::prelude::*;

use crate::errors::ApiError;
use crate::identity::Auth;

verus! {

/// Grants exactly when the authenticated identity is the owner; any other
/// identity — authenticated, but not authorized — is turned away with the
/// one fixed forbidden rejection.
pub fn require_owner(id: u128, auth: Auth) -> (r: Result<(), ApiError>)
    ensures
        r is Ok <==> id == auth.id,
        r matches Err(e) ==> e.status_code == 403 && e.message@
            == "Only the owner can delete this resource"@,
{
    if id == auth.id {
        return Ok(());
    }
    Err(ApiError::new(403, "Only the owner can delete this resource".to_owned()))
}

/// The ownership decision for a resource that may be absent: not found
/// before forbidden, and granted only to the owner.
pub open spec fn owner_decision(owner: Option<u128>, auth: Auth, r: Result<(), ApiError>) -> bool {
    match owner {
        None => r matches Err(e) && e.status_code == 404 && e.message@ == "Record not found"@,
        Some(id) => {
            &&& r is Ok <==> id == auth.id
            &&& r matches Err(e) ==> e.status_code == 403 && e.message@
                == "Only the owner can delete this resource"@
        },
    }
}

/// Checks ownership of a loaded resource, where loading may have found
/// nothing. An absent resource is "not found" whoever asks; a present one
/// is granted only to its owner.
pub fn require_resource_owner(owner: Option<u128>, auth: Auth) -> (r: Result<(), ApiError>)
    ensures
        owner_decision(owner, auth, r),
{
    match owner {
        None => Err(ApiError::new(404, "Record not found".to_owned())),
        Some(id) => require_owner(id, auth),
    }
}

/// An absent resource is reported "not found" to every identity alike: the
/// answer carries no trace of who asked, so it cannot leak whether the
/// asker would have owned it.
pub proof fn lemma_absent_resource_hides_ownership(
    a1: Auth,
    a2: Auth,
    r1: Result<(), ApiError>,
    r2: Result<(), ApiError>,
)
    requires
        owner_decision(None, a1, r1),
        owner_decision(None, a2, r2),
    ensures
        r1 matches Err(e1) && r2 matches Err(e2) && e1.status_code == e2.status_code
            && e1.message@ == e2.message@,
{
}

} // verus!

//! Admin gate for movie mutations.

use vstd::prelude::*;
use crate::auth::{Principal, Role, role_of};

verus! {

/// Decides a movie mutation request from the authenticated principal: none → 401,
/// a non-admin → 403, an admin → allowed.
pub fn require_movie_admin(principal: Option<&Principal>) -> (r: Result<(), u16>)
    ensures
        principal is None ==> r == Err::<(), u16>(401),
        principal matches Some(p) ==> (role_of(*p) == Role::Admin ==> r is Ok),
        principal matches Some(p) ==> (role_of(*p) != Role::Admin ==> r == Err::<(), u16>(403)),
{
    match principal {
        None => Err(401),
        Some(p) => {
            if p.role() != Role::Admin {
                Err(403)
            } else {
                Ok(())
            }
        },
    }
}

} // verus!

//! The role hierarchy and the identities that requests carry.

use vstd::prelude::*;

use crate::error::WorkflowError;
use crate::models::{Id, Role, User};
use crate::store::Database;

verus! {

/// An actor with role `actor` holds a capability granted to `required` and every more
/// privileged role.
pub fn authorized(actor: Role, required: Role) -> (r: bool)
    ensures
        r == (actor.rank() <= required.rank()),
{
    actor.ordinal() <= required.ordinal()
}

/// Fail with `Unauthorized` unless `user` holds a capability granted to `required`.
pub fn require_role(user: &User, required: Role) -> (r: Result<(), WorkflowError>)
    ensures
        r is Ok <==> user.role.rank() <= required.rank(),
        r is Err ==> r->Err_0 == WorkflowError::Unauthorized,
{
    if authorized(user.role, required) {
        Ok(())
    } else {
        Err(WorkflowError::Unauthorized)
    }
}

/// Any user that is authenticated, with no role checked yet.
pub struct AuthUser(pub User);

impl AuthUser {
    /// The active user that a session names, if any.
    pub fn from_session(db: &Database, session: Option<Id>) -> (r: Option<AuthUser>)
        requires
            db.wf(),
        ensures
            r is Some <==> (session is Some && db@.has_user(session->Some_0 as int) && db@.user(
                session->Some_0 as int,
            ).active),
            r is Some ==> r->Some_0.0 == db@.user(session->Some_0 as int),
    {
        match session {
            Some(id) => match db.find(id) {
                Ok(user) => Some(AuthUser(user)),
                Err(_) => None,
            },
            None => None,
        }
    }
}

/// A request without an authenticated user.
pub struct NoUser;

impl NoUser {
    /// Succeeds exactly when no user is authenticated.
    pub fn from_auth(user: &Option<AuthUser>) -> (r: Option<NoUser>)
        ensures
            r is Some <==> user is None,
    {
        match user {
            Some(_) => None,
            None => Some(NoUser),
        }
    }
}

} // verus!

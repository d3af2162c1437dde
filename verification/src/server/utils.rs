use vstd::prelude::*;

use crate::schema::session::Cookie;
use crate::schema::LIBRARIAN;
use crate::server::database::{Database, DatabaseView};
use crate::server::error::RouteError;

verus! {

impl DatabaseView {
    /// Whether the account `requester` may act as a librarian right now: it
    /// has to exist and to be of that kind.
    pub open spec fn require_librarian(self, requester: i64) -> Result<(), RouteError> {
        match self.user(requester) {
            None => Err(RouteError::Internal),
            Some(user) => if user.kind != LIBRARIAN {
                Err(RouteError::Forbidden)
            } else {
                Ok(())
            },
        }
    }
}

/// Looks the requester's kind up afresh and lets only a librarian pass.
pub fn verify_user_is_librarian(db: &Database, cookie: &Cookie) -> (verdict: Result<
    (),
    RouteError,
>)
    ensures
        verdict == db@.require_librarian(cookie.id),
{
    match db.find_user(cookie.id) {
        None => Err(RouteError::Internal),
        Some(i) => {
            if db.users[i].kind != LIBRARIAN {
                Err(RouteError::new_forbidden())
            } else {
                Ok(())
            }
        },
    }
}

} // verus!

//! Which page the window shows.

use vstd::prelude::*;

use crate::client::http::SessionCookie;
use crate::schema::{LIBRARIAN, NORMAL_USER};

verus! {

/// The pages of the window.
#[derive(Debug, Clone, Copy, PartialEq, Eq, Structural)]
pub enum Page {
    Login,
    UserView,
    LibrarianView,
}

/// Whether two texts are the same.
pub fn same_text(a: &str, b: &str) -> (same: bool)
    ensures
        same == (a@ == b@),
{
    String::from_str(a) == String::from_str(b)
}

impl Page {
    /// The name under which the window's stack knows the page.
    pub fn name(self) -> (name: &'static str)
        ensures
            name@ == match self {
                Page::Login => "login"@,
                Page::UserView => "user-view"@,
                Page::LibrarianView => "librarian-view"@,
            },
    {
        match self {
            Page::Login => "login",
            Page::UserView => "user-view",
            Page::LibrarianView => "librarian-view",
        }
    }
}

/// The page for an account of this kind, if the kind is known.
pub open spec fn page_of_kind(user_type: i64) -> Option<Page> {
    if user_type == NORMAL_USER {
        Some(Page::UserView)
    } else if user_type == LIBRARIAN {
        Some(Page::LibrarianView)
    } else {
        None
    }
}

/// The page to show once the session has changed: a reader's or a
/// librarian's view for a session of that kind, and the page that is shown
/// already where there is no session or its kind is unknown.
pub fn page_after_session_change(shown: Page, session: Option<&SessionCookie>) -> (page: Page)
    ensures
        page == match session {
            Some(session) => match page_of_kind(session@.user_type) {
                Some(page) => page,
                None => shown,
            },
            None => shown,
        },
{
    match session {
        None => shown,
        Some(session) => {
            let user_type = session.user_type();
            if user_type == NORMAL_USER {
                Page::UserView
            } else if user_type == LIBRARIAN {
                Page::LibrarianView
            } else {
                shown
            }
        },
    }
}

/// The page to show after logging out.
pub fn page_after_logout() -> (page: Page)
    ensures
        page == Page::Login,
{
    Page::Login
}

} // verus!

use vstd::prelude::*;

use crate::schema::session;
use crate::schema::{Integer, Text};

verus! {

/// A request to open a new account.
#[derive(Debug, Clone, Default, PartialEq, Eq)]
pub struct CreateAccount {
    pub name: String,
    pub email: String,
    pub password: String,
}

/// A request to log in.
#[derive(Debug, Clone, Default, PartialEq, Eq)]
pub struct Login {
    pub email: String,
    pub password: String,
}

/// The identity that a successful login or sign-up hands back.
#[derive(Debug, Clone, Copy, Default, PartialEq, Eq)]
pub struct LoginReply {
    pub id: Integer,
    pub kind: Integer,
}

#[derive(Debug, Clone, Default, PartialEq, Eq)]
pub struct GetAllUsersRequest {
    pub cookie: session::Cookie,
}

/// An account as a librarian sees it, with the number of books it holds.
#[derive(Debug, Clone, Default, PartialEq, Eq)]
pub struct User {
    pub id: Integer,
    pub name: Text,
    pub email: Text,
    pub kind: Integer,
    pub borrowed_book_count: Integer,
}

/// What a [`User`] is, as mathematics.
pub struct UserView {
    pub id: i64,
    pub name: Seq<char>,
    pub email: Seq<char>,
    pub kind: i64,
    pub borrowed_book_count: int,
}

impl View for User {
    type V = UserView;

    open spec fn view(&self) -> UserView {
        UserView {
            id: self.id,
            name: self.name@,
            email: self.email@,
            kind: self.kind,
            borrowed_book_count: self.borrowed_book_count as int,
        }
    }
}

pub type GetAllUsersReply = Vec<User>;

#[derive(Debug, Clone, Default, PartialEq, Eq)]
pub struct PromoteUserRequest {
    pub user_to_be_promoted: Integer,
    pub cookie: session::Cookie,
}

#[derive(Debug, Clone, Default, PartialEq, Eq)]
pub struct DeleteUserRequest {
    pub user_to_be_deleted: Integer,
    pub cookie: session::Cookie,
}

/// How a request to delete an account ended. The two refusals are ordinary
/// outcomes, not errors.
#[derive(Debug, Clone, Copy, Default, PartialEq, Eq)]
pub enum DeleteUserReply {
    #[default]
    Deleted,
    UsersStillHadBooks,
    CannotDeleteSelf,
}

} // verus!

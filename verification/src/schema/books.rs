use vstd::prelude::*;

use crate::schema::session;
use crate::schema::{Integer, Text};

verus! {

/// An author of the catalogue. Dates are seconds since the Unix epoch.
#[derive(Debug, Clone, Default, PartialEq, Eq)]
pub struct Author {
    pub author_id: Integer,
    pub name: Text,
    pub date_of_birth: Integer,
    pub date_of_death: Option<Integer>,
    pub description: Text,
}

/// What an [`Author`] is, as mathematics.
pub struct AuthorView {
    pub author_id: i64,
    pub name: Seq<char>,
    pub date_of_birth: i64,
    pub date_of_death: Option<i64>,
    pub description: Seq<char>,
}

impl View for Author {
    type V = AuthorView;

    open spec fn view(&self) -> AuthorView {
        AuthorView {
            author_id: self.author_id,
            name: self.name@,
            date_of_birth: self.date_of_birth,
            date_of_death: self.date_of_death,
            description: self.description@,
        }
    }
}

/// A book as the catalogue lists it: joined with its author, and with the
/// answer to whether a copy is free right now.
#[derive(Debug, Clone, Default, PartialEq, Eq)]
pub struct Book {
    pub book_id: Integer,
    pub title: Text,
    pub author: Author,
    pub publish_date: Integer,
    pub publisher: Text,
    pub count: Integer,
    pub synopsis: Text,
    pub can_be_borrowed: bool,
}

/// What a [`Book`] is, as mathematics.
pub struct BookView {
    pub book_id: i64,
    pub title: Seq<char>,
    pub author: AuthorView,
    pub publish_date: i64,
    pub publisher: Seq<char>,
    pub count: i64,
    pub synopsis: Seq<char>,
    pub can_be_borrowed: bool,
}

impl View for Book {
    type V = BookView;

    open spec fn view(&self) -> BookView {
        BookView {
            book_id: self.book_id,
            title: self.title@,
            author: self.author@,
            publish_date: self.publish_date,
            publisher: self.publisher@,
            count: self.count,
            synopsis: self.synopsis@,
            can_be_borrowed: self.can_be_borrowed,
        }
    }
}

#[derive(Debug, Clone, Default, PartialEq, Eq)]
pub struct BorrowRequest {
    pub cookie: session::Cookie,
    pub book_id: Integer,
}

#[derive(Debug, Clone, Copy, Default, PartialEq, Eq)]
pub struct BorrowReply {
    pub already_borrowed: bool,
}

/// A loan as its borrower sees it.
#[derive(Debug, Clone, Copy, Default, PartialEq, Eq)]
pub struct BorrowedBook {
    pub borrow_id: Integer,
    pub book_id: Integer,
    pub valid_until: Integer,
    pub chapters_read: Integer,
}

pub type BorrowedByReply = Vec<BorrowedBook>;

#[derive(Debug, Clone, Default, PartialEq, Eq)]
pub struct BorrowsRequest {
    pub cookie: session::Cookie,
}

/// A loan as a librarian sees it.
#[derive(Debug, Clone, Copy, Default, PartialEq, Eq)]
pub struct Borrow {
    pub borrow_id: Integer,
    pub book_id: Integer,
    pub user_id: Integer,
    pub valid_until: Integer,
}

pub type BorrowsReply = Vec<Borrow>;

/// A request to add a book (`book_id` absent) or to rewrite one (`book_id`
/// present).
#[derive(Debug, Clone, Default, PartialEq, Eq)]
pub struct ChangeBookDetailsRequest {
    pub book_id: Option<Integer>,
    pub title: Text,
    pub author_id: Integer,
    pub publish_date: Integer,
    pub publisher: Text,
    pub count: Integer,
    pub synopsis: Text,
    pub cookie: session::Cookie,
}

/// A request to add an author. Authors cannot be rewritten: `author_id` has to
/// be absent.
#[derive(Debug, Clone, Default, PartialEq, Eq)]
pub struct ChangeAuthorDetailsRequest {
    pub author_id: Option<Integer>,
    pub name: Text,
    pub date_of_birth: Integer,
    pub date_of_death: Option<Integer>,
    pub description: Text,
    pub cookie: session::Cookie,
}

} // verus!

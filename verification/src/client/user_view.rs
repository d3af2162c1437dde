//! What the reader's view shows and asks for.

use vstd::prelude::*;

use crate::client::librarian_view::{book_with, is_book_with};
use crate::client::text::{decimal, push_decimal};
use crate::schema::books::{Book, BorrowReply, BorrowRequest};
use crate::schema::session::Cookie;

verus! {

/// The endpoint that lends a book.
pub const BORROW: &'static str = "/borrow";

/// What the client says when the reader holds the book already.
pub const ALREADY_BORROWED: &'static str = "Nu poți împrumuta aceeași carte de mai multe ori";

/// The first of the listed books with this id.
pub fn book_for_id(books: &Vec<Book>, id: i64) -> (book: Option<&Book>)
    ensures
        is_book_with(
            books@,
            id,
            match book {
                Some(book) => Some(*book),
                None => None,
            },
        ),
{
    book_with(books, id)
}

/// The request to borrow the book `book_id` as the reader of `cookie`.
pub fn borrow_request(cookie: Cookie, book_id: i64) -> (request: BorrowRequest)
    ensures
        request.cookie == cookie,
        request.book_id == book_id,
{
    BorrowRequest { cookie, book_id }
}

/// What the client says of the server's answer to a request to borrow:
/// something only where the reader holds the book already.
pub fn borrow_notice(reply: &BorrowReply) -> (notice: Option<&'static str>)
    ensures
        reply.already_borrowed ==> (notice matches Some(text) && text@ == ALREADY_BORROWED@),
        !reply.already_borrowed ==> notice is None,
{
    if reply.already_borrowed {
        Some(ALREADY_BORROWED)
    } else {
        None
    }
}

/// The endpoint that lists the loans of the reader `user_id`.
pub fn borrowed_by_endpoint(user_id: i64) -> (endpoint: String)
    ensures
        endpoint@ == "/borrowed-by/"@ + decimal(user_id as int),
{
    let mut endpoint = String::from_str("/borrowed-by/");
    push_decimal(&mut endpoint, user_id);
    endpoint
}

/// Whether the button that borrows a book can be pressed.
pub fn borrow_button_is_sensitive(book: &Book) -> (sensitive: bool)
    ensures
        sensitive == book.can_be_borrowed,
{
    book.can_be_borrowed
}

} // verus!

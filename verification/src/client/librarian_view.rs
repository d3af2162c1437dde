//! What the librarian's view shows and asks for.

use vstd::prelude::*;

use crate::client::confirmation_dialog::{ConfirmationDialogBuilder, DialogView};
use crate::client::http::Error;
use crate::client::text::{decimal, push_decimal};
use crate::client::window::same_text;
use crate::schema::auth::{DeleteUserReply, User};
use crate::schema::books::Book;
use crate::schema::{LIBRARIAN, NORMAL_USER};

verus! {

/// The name of the tab that lists the books.
pub const ALL_BOOKS: &'static str = "all-books";

/// The name of the tab that lists the loans.
pub const BORROWS: &'static str = "borrows";

/// The name of the tab that lists the accounts.
pub const USERS: &'static str = "users";

/// The status with which the server turns a malformed request down.
pub const BAD_REQUEST: u32 = 400;

/// For how many days the client asks to lengthen a loan.
pub const LENGTHEN_DAYS: i64 = 30;

/// What the client warns of before it deletes an account.
pub const DELETE_USER_WARNING: &'static str =
    "Această acțiune este ireversibilă și, în cocordanță cu RGPD, toate datele utilizatorului vor fi șterse.";

/// What the client says when an account that holds books was to be deleted.
pub const STILL_HAD_BOOKS: &'static str =
    "Nu s-a putut realiza ștergerea contului deoarece utilizatorul încă are cărți împrumutate";

/// What the client says when a librarian was to delete their own account.
pub const CANNOT_DELETE_SELF: &'static str = "Contul propriu nu poate fi șters în acest fel";

/// Which lists to fetch anew.
#[derive(Debug, Clone, Copy, PartialEq, Eq, Structural)]
pub struct Refresh {
    pub books: bool,
    pub users: bool,
    pub borrows: bool,
}

/// What to fetch anew when the tab `view` asks for it: the tab's own list,
/// and for the loans also the books and the accounts that they name.
pub open spec fn refresh_for(view: Seq<char>) -> Refresh {
    if view == ALL_BOOKS@ {
        Refresh { books: true, users: false, borrows: false }
    } else if view == BORROWS@ {
        Refresh { books: true, users: true, borrows: true }
    } else if view == USERS@ {
        Refresh { books: false, users: true, borrows: false }
    } else {
        Refresh { books: false, users: false, borrows: false }
    }
}

/// What to fetch anew when the refresh button is pressed on the tab `view`.
pub fn on_refresh_clicked(view: &str) -> (refresh: Refresh)
    ensures
        refresh == refresh_for(view@),
{
    if same_text(view, ALL_BOOKS) {
        Refresh { books: true, users: false, borrows: false }
    } else if same_text(view, BORROWS) {
        Refresh { books: true, users: true, borrows: true }
    } else if same_text(view, USERS) {
        Refresh { books: false, users: true, borrows: false }
    } else {
        Refresh { books: false, users: false, borrows: false }
    }
}

/// Whether the button that adds a book is shown: on the tab of the books
/// only.
pub fn show_new_book_button(visible_child: &str) -> (shown: bool)
    ensures
        shown == (visible_child@ == ALL_BOOKS@),
{
    same_text(visible_child, ALL_BOOKS)
}

/// `book` is the first of `books` with the id `book_id`.
pub open spec fn is_book_with(books: Seq<Book>, book_id: i64, book: Option<Book>) -> bool {
    match book {
        Some(book) => exists|i: int|
            {
                &&& 0 <= i < books.len()
                &&& #[trigger] books[i] == book
                &&& book.book_id == book_id
                &&& forall|j: int| 0 <= j < i ==> books[j].book_id != book_id
            },
        None => forall|j: int| 0 <= j < books.len() ==> books[j].book_id != book_id,
    }
}

/// The first of the listed books with this id.
pub fn book_with(books: &Vec<Book>, book_id: i64) -> (book: Option<&Book>)
    ensures
        is_book_with(
            books@,
            book_id,
            match book {
                Some(book) => Some(*book),
                None => None,
            },
        ),
{
    let mut i: usize = 0;
    while i < books.len()
        invariant
            i <= books.len(),
            forall|j: int| 0 <= j < i ==> books@[j].book_id != book_id,
        decreases books.len() - i,
    {
        if books[i].book_id == book_id {
            assert(books@[i as int] == books@[i as int]);
            return Some(&books[i]);
        }
        i += 1;
    }
    None
}

/// `user` is the first of `users` with the id `user_id`.
pub open spec fn is_user_with(users: Seq<User>, user_id: i64, user: Option<User>) -> bool {
    match user {
        Some(user) => exists|i: int|
            {
                &&& 0 <= i < users.len()
                &&& #[trigger] users[i] == user
                &&& user.id == user_id
                &&& forall|j: int| 0 <= j < i ==> users[j].id != user_id
            },
        None => forall|j: int| 0 <= j < users.len() ==> users[j].id != user_id,
    }
}

/// The first of the listed accounts with this id.
pub fn user_with(users: &Vec<User>, user_id: i64) -> (user: Option<&User>)
    ensures
        is_user_with(
            users@,
            user_id,
            match user {
                Some(user) => Some(*user),
                None => None,
            },
        ),
{
    let mut i: usize = 0;
    while i < users.len()
        invariant
            i <= users.len(),
            forall|j: int| 0 <= j < i ==> users@[j].id != user_id,
        decreases users.len() - i,
    {
        if users[i].id == user_id {
            assert(users@[i as int] == users@[i as int]);
            return Some(&users[i]);
        }
        i += 1;
    }
    None
}

/// How the list names an account: by its name, marked as "me" where it is
/// the librarian's own.
pub open spec fn user_name_text(name: Seq<char>, id: i64, own_id: i64) -> Seq<char> {
    if id == own_id {
        name + " (eu)"@
    } else {
        name
    }
}

/// How the list names an account.
pub fn user_name_label(user: &User, own_id: i64) -> (label: String)
    ensures
        label@ == user_name_text(user.name@, user.id, own_id),
{
    let mut label = user.name.clone();
    if user.id == own_id {
        label.append(" (eu)");
    }
    label
}

/// How the list names the kind of an account.
pub open spec fn user_type_text(user_type: i64) -> Seq<char> {
    if user_type == NORMAL_USER {
        "Utilizator normal"@
    } else if user_type == LIBRARIAN {
        "Bibliotecar"@
    } else {
        "Invalid ("@ + decimal(user_type as int) + ")"@
    }
}

/// How the list names the kind of an account.
pub fn user_type_label(user_type: i64) -> (label: String)
    ensures
        label@ == user_type_text(user_type),
{
    if user_type == NORMAL_USER {
        String::from_str("Utilizator normal")
    } else if user_type == LIBRARIAN {
        String::from_str("Bibliotecar")
    } else {
        let mut label = String::from_str("Invalid (");
        push_decimal(&mut label, user_type);
        label.append(")");
        label
    }
}

/// Whether the button that promotes an account is shown: for a normal user
/// only.
pub fn show_promote_button(kind: Option<i64>) -> (shown: bool)
    ensures
        shown == (kind == Some(NORMAL_USER)),
{
    match kind {
        Some(kind) => kind == NORMAL_USER,
        None => false,
    }
}

/// What the client asks before it lengthens a loan: the new deadline as
/// `date` spells it, and the days until then.
pub fn lengthen_notice(date: &str, remaining_days: i64) -> (notice: String)
    ensures
        notice@ == "Noua data la care va trebui înapoiată cartea este "@ + date@ + " (în "@
            + decimal(remaining_days as int) + " de zile)"@,
{
    let mut notice = String::from_str("Noua data la care va trebui înapoiată cartea este ");
    notice.append(date);
    notice.append(" (în ");
    push_decimal(&mut notice, remaining_days);
    notice.append(" de zile)");
    notice
}

/// The endpoint that lengthens the loan `borrow_id` by the usual days.
pub fn lengthen_endpoint(borrow_id: i64) -> (endpoint: String)
    ensures
        endpoint@ == "/lengthen-borrow/"@ + decimal(borrow_id as int) + "?days="@ + decimal(
            LENGTHEN_DAYS as int,
        ),
{
    let mut endpoint = String::from_str("/lengthen-borrow/");
    push_decimal(&mut endpoint, borrow_id);
    endpoint.append("?days=");
    push_decimal(&mut endpoint, LENGTHEN_DAYS);
    endpoint
}

/// The endpoint that ends the loan `borrow_id`.
pub fn end_borrow_endpoint(borrow_id: i64) -> (endpoint: String)
    ensures
        endpoint@ == "/end-borrow/"@ + decimal(borrow_id as int),
{
    let mut endpoint = String::from_str("/end-borrow/");
    push_decimal(&mut endpoint, borrow_id);
    endpoint
}

/// The endpoint that deletes the book `book_id`.
pub fn delete_book_endpoint(book_id: i64) -> (endpoint: String)
    ensures
        endpoint@ == "/delete-book/"@ + decimal(book_id as int),
{
    let mut endpoint = String::from_str("/delete-book/");
    push_decimal(&mut endpoint, book_id);
    endpoint
}

/// Whether a failure to delete a book is explained as "the book is on loan":
/// where the server turned the request down as a bad one.
pub open spec fn is_on_loan_failure(error: Error) -> bool {
    error matches Error::Api { status_code, .. } && status_code == BAD_REQUEST
}

/// What the client says when a book could not be deleted.
pub fn delete_book_failure(error: &Error) -> (message: String)
    ensures
        message@ == "Ștergerea cărții a eșuat "@ + (if is_on_loan_failure(*error) {
            "(cartea este în împrumut)"@
        } else {
            ""@
        }),
{
    let mut message = String::from_str("Ștergerea cărții a eșuat ");
    let on_loan = match error {
        Error::Api { status_code, .. } => *status_code == BAD_REQUEST,
        _ => false,
    };
    if on_loan {
        message.append("(cartea este în împrumut)");
    } else {
        message.append("");
    }
    message
}

/// What the client asks before it deletes a book.
pub fn delete_book_dialog() -> (dialog: ConfirmationDialogBuilder)
    ensures
        dialog@ == (DialogView {
            title: "Ești sigur?"@,
            heading: "Ești sigur că vrei să ștergi această carte?"@,
            body: "Această acțiune este ireversibilă"@,
            confirm_text: "Șterge cartea"@,
            action_is_destructive: true,
        }),
{
    ConfirmationDialogBuilder::new().title(String::from_str("Ești sigur?")).heading(
        String::from_str("Ești sigur că vrei să ștergi această carte?"),
    ).body(String::from_str("Această acțiune este ireversibilă")).confirm_text(
        String::from_str("Șterge cartea"),
    ).action_is_destructive(true)
}

/// What the client asks before it lengthens a loan; `notice` tells the new
/// deadline.
pub fn lengthen_borrow_dialog(notice: String) -> (dialog: ConfirmationDialogBuilder)
    ensures
        dialog@ == (DialogView {
            title: "Ești sigur?"@,
            heading: "Ești sigur că vrei să lungești durata acestui împrumut?"@,
            body: notice@,
            confirm_text: "Da"@,
            action_is_destructive: false,
        }),
{
    ConfirmationDialogBuilder::new().title(String::from_str("Ești sigur?")).heading(
        String::from_str("Ești sigur că vrei să lungești durata acestui împrumut?"),
    ).body(notice).confirm_text(String::from_str("Da"))
}

/// What the client asks before it ends a loan.
pub fn finish_borrow_dialog() -> (dialog: ConfirmationDialogBuilder)
    ensures
        dialog@ == (DialogView {
            title: "Ești sigur?"@,
            heading: "Ești sigur că vrei să închei împrumutul utilizatorului acum?"@,
            body: "Acest lucru îl va forța să înapoieze cartea astăzi"@,
            confirm_text: "Încheie împrumut"@,
            action_is_destructive: true,
        }),
{
    ConfirmationDialogBuilder::new().title(String::from_str("Ești sigur?")).heading(
        String::from_str("Ești sigur că vrei să închei împrumutul utilizatorului acum?"),
    ).body(String::from_str("Acest lucru îl va forța să înapoieze cartea astăzi")).confirm_text(
        String::from_str("Încheie împrumut"),
    ).action_is_destructive(true)
}

/// What the client asks before it promotes an account.
pub fn promote_user_dialog() -> (dialog: ConfirmationDialogBuilder)
    ensures
        dialog@ == (DialogView {
            title: "Confirmare promovare utilizator"@,
            heading: "Ești sigur că vrei să promovezi acest utilizator la bibliotecar?"@,
            body: "Acest utilizator va avea aceleași drepturi ca dvs."@,
            confirm_text: "Promovează"@,
            action_is_destructive: true,
        }),
{
    ConfirmationDialogBuilder::new().title(
        String::from_str("Confirmare promovare utilizator"),
    ).heading(
        String::from_str("Ești sigur că vrei să promovezi acest utilizator la bibliotecar?"),
    ).body(String::from_str("Acest utilizator va avea aceleași drepturi ca dvs.")).confirm_text(
        String::from_str("Promovează"),
    ).action_is_destructive(true)
}

/// What the client asks before it deletes an account.
pub fn delete_user_dialog() -> (dialog: ConfirmationDialogBuilder)
    ensures
        dialog@ == (DialogView {
            title: "Confirmare ștergere cont"@,
            heading: "Ești sigur că vrei să ștergi utilizatorul?"@,
            body: DELETE_USER_WARNING@,
            confirm_text: "Șterge contul"@,
            action_is_destructive: false,
        }),
{
    ConfirmationDialogBuilder::new().title(String::from_str("Confirmare ștergere cont")).heading(
        String::from_str("Ești sigur că vrei să ștergi utilizatorul?"),
    ).body(String::from_str(DELETE_USER_WARNING)).confirm_text(String::from_str("Șterge contul"))
}

/// What the client says of how a request to delete an account ended;
/// nothing where the account is gone.
pub fn delete_user_notice(reply: DeleteUserReply) -> (notice: Option<&'static str>)
    ensures
        match reply {
            DeleteUserReply::Deleted => notice is None,
            DeleteUserReply::UsersStillHadBooks => notice matches Some(text) && text@
                == STILL_HAD_BOOKS@,
            DeleteUserReply::CannotDeleteSelf => notice matches Some(text) && text@
                == CANNOT_DELETE_SELF@,
        },
{
    match reply {
        DeleteUserReply::Deleted => None,
        DeleteUserReply::UsersStillHadBooks => Some(STILL_HAD_BOOKS),
        DeleteUserReply::CannotDeleteSelf => Some(CANNOT_DELETE_SELF),
    }
}

} // verus!

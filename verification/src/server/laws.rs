//! What holds of the operations, whatever the tables hold.

use vstd::prelude::*;

use crate::schema::auth::{DeleteUserReply, LoginReply};
use crate::schema::books::{BookView, BorrowReply, ChangeBookDetailsRequest};
use crate::client::time::days_between;
use crate::schema::LIBRARIAN;
use crate::server::books::{DEFAULT_LANGUAGE, SECONDS_PER_DAY};
use crate::server::database::{
    book_ids, borrow_ids, lemma_next_id_is_fresh, next_id, user_emails, user_ids, BorrowData,
    BorrowRow, DatabaseView,
};
use crate::server::error::RouteError;
use crate::server::password::{is_password_hash, password_matches};
use crate::server::rows::{
    lemma_filter_empty, lemma_first_index, lemma_index_of_first, lemma_remove_key,
};

verus! {

/// In the catalogue a book can be borrowed exactly when the library owns
/// more copies of it than there are active loans of it.
pub proof fn law_listing_tells_free_copies(db: DatabaseView, i: int)
    requires
        0 <= i < db.books.len(),
    ensures
        db.book_listing()[i].book_id == db.books[i].book_id,
        db.book_listing()[i].can_be_borrowed == (db.books[i].count > db.borrows_of_book(
            db.books[i].book_id,
        ).len()),
{
}

/// Borrowing a book of which no copy is free changes nothing and answers
/// that the book was not already borrowed.
pub proof fn law_borrow_without_free_copy(
    db: DatabaseView,
    user_id: i64,
    book_id: i64,
    valid_until: Option<i64>,
)
    requires
        db.book(book_id) matches Some(book) && !db.can_be_borrowed(book),
    ensures
        db.borrow_until(user_id, book_id, valid_until).0 == db,
        db.borrow_until(user_id, book_id, valid_until).1 == Ok::<BorrowReply, RouteError>(
            BorrowReply { already_borrowed: false },
        ),
{
}

/// While a borrower holds a book, borrowing it again records no second loan;
/// and as long as a copy is still free, the answer is that the book was
/// already borrowed.
pub proof fn law_borrow_while_held(
    db: DatabaseView,
    user_id: i64,
    book_id: i64,
    valid_until: Option<i64>,
)
    requires
        db.borrows_of_pair(book_id, user_id).len() >= 1,
    ensures
        db.borrow_until(user_id, book_id, valid_until).0 == db,
        db.book(book_id) is Some && db.can_be_borrowed(db.book(book_id).unwrap())
            ==> db.borrow_until(user_id, book_id, valid_until).1 == Ok::<BorrowReply, RouteError>(
            BorrowReply { already_borrowed: true },
        ),
{
}

/// Borrowing the same book twice in a row: where the first request recorded
/// a loan, the second records none; and as long as a copy is still free, it
/// answers that the book was already borrowed.
pub proof fn law_borrow_twice(
    db: DatabaseView,
    user_id: i64,
    book_id: i64,
    first: Option<i64>,
    second: Option<i64>,
)
    requires
        db.borrow_until(user_id, book_id, first).0 != db,
    ensures
        ({
            let once = db.borrow_until(user_id, book_id, first).0;
            let twice = once.borrow_until(user_id, book_id, second);
            &&& once.borrows == db.borrows.push(db.new_borrow(user_id, book_id, first.unwrap()))
            &&& twice.0 == once
            &&& once.book(book_id) is Some && once.can_be_borrowed(once.book(book_id).unwrap())
                ==> twice.1 == Ok::<BorrowReply, RouteError>(
                BorrowReply { already_borrowed: true },
            )
        }),
{
    broadcast use Seq::lemma_filter_push;

    let once = db.borrow_until(user_id, book_id, first).0;
    let row = db.new_borrow(user_id, book_id, first.unwrap());
    assert(once == db.with_borrow(row));
    assert(once.borrows_of_pair(book_id, user_id) == db.borrows_of_pair(book_id, user_id).push(
        row,
    ));
    law_borrow_while_held(once, user_id, book_id, second);
}

/// Borrowing keeps the rule that no borrower holds two active loans of one
/// book.
pub proof fn law_borrow_keeps_one_loan_per_pair(
    db: DatabaseView,
    user_id: i64,
    book_id: i64,
    valid_until: Option<i64>,
)
    requires
        db.one_loan_per_pair(),
    ensures
        db.borrow_until(user_id, book_id, valid_until).0.one_loan_per_pair(),
{
    let after = db.borrow_until(user_id, book_id, valid_until).0;
    if after != db {
        let row = db.new_borrow(user_id, book_id, valid_until.unwrap());
        assert(after.borrows == db.borrows.push(row));
        lemma_filter_empty(
            db.borrows,
            |b: BorrowRow| b.book_id == book_id && b.user_id == user_id,
        );
        assert forall|i: int, j: int| 0 <= i < j < after.borrows.len() implies !((
        #[trigger] after.borrows[i]).book_id == (#[trigger] after.borrows[j]).book_id
            && after.borrows[i].user_id == after.borrows[j].user_id) by {
            if j < db.borrows.len() {
                assert(after.borrows[i] == db.borrows[i]);
                assert(after.borrows[j] == db.borrows[j]);
            } else {
                assert(after.borrows[i] == db.borrows[i]);
            }
        }
    }
}

/// A librarian who asks to delete their own account is told that this
/// cannot be done, and nothing changes, whether or not the account holds
/// books.
pub proof fn law_delete_self(db: DatabaseView, requester: i64)
    requires
        db.require_librarian(requester) is Ok,
    ensures
        db.delete_user(requester, requester).0 == db,
        db.delete_user(requester, requester).1 == Ok::<DeleteUserReply, RouteError>(
            DeleteUserReply::CannotDeleteSelf,
        ),
{
}

/// A librarian who asks to delete another account that still holds a book
/// is told so, and nothing changes.
pub proof fn law_delete_user_with_books(db: DatabaseView, requester: i64, target: i64)
    requires
        db.require_librarian(requester) is Ok,
        target != requester,
        db.borrows_of_user(target).len() >= 1,
    ensures
        db.delete_user(requester, target).0 == db,
        db.delete_user(requester, target).1 == Ok::<DeleteUserReply, RouteError>(
            DeleteUserReply::UsersStillHadBooks,
        ),
{
}

/// Nobody whose account exists can delete a book of which a copy is out on
/// loan: the request is forbidden, and nothing changes.
pub proof fn law_delete_borrowed_book(db: DatabaseView, requester: i64, book_id: i64)
    requires
        db.user(requester) is Some,
        db.borrows_of_book(book_id).len() >= 1,
    ensures
        db.delete_book(requester, book_id).0 == db,
        db.delete_book(requester, book_id).1 == Err::<(), RouteError>(RouteError::Forbidden),
{
}

/// Promoting an account that is a librarian already changes nothing and
/// succeeds.
pub proof fn law_promote_librarian(db: DatabaseView, requester: i64, target: i64)
    requires
        db.require_librarian(requester) is Ok,
        db.user(target) matches Some(user) && user.kind == LIBRARIAN,
    ensures
        db.promote_user(requester, target).0 == db,
        db.promote_user(requester, target).1 == Ok::<(), RouteError>(()),
{
    lemma_index_of_first(user_ids(db.users), target);
    let i = user_ids(db.users).index_of_first(target).unwrap();
    assert(db.users.update(i, db.users[i]) =~= db.users);
}

/// Promoting twice is promoting once.
pub proof fn law_promote_twice(db: DatabaseView, requester: i64, target: i64)
    ensures
        ({
            let once = db.promote_user(requester, target);
            once.0.promote_user(requester, target) == once
        }),
{
    let once = db.promote_user(requester, target);
    if db.require_librarian(requester) is Ok {
        lemma_index_of_first(user_ids(db.users), target);
        lemma_index_of_first(user_ids(db.users), requester);
        assert(user_ids(once.0.users) =~= user_ids(db.users));
        match user_ids(db.users).index_of_first(target) {
            Some(i) => {
                let promoted = once.0.users;
                assert(promoted.update(i, promoted[i]) =~= promoted);
                let r = user_ids(db.users).index_of_first(requester).unwrap();
                assert(promoted[r].kind == LIBRARIAN);
            },
            None => {},
        }
    }
}

/// A librarian's request to add a book, by an author that exists, adds
/// exactly one row, whose fields are the request's; and the catalogue read
/// afterwards ends with that book.
pub proof fn law_added_book_is_listed(db: DatabaseView, request: ChangeBookDetailsRequest)
    requires
        db.wf(),
        db.require_librarian(request.cookie.id) is Ok,
        request.book_id is None,
        db.author(request.author_id) is Some,
        next_id(book_ids(db.books)) <= i64::MAX,
    ensures
        ({
            let after = db.change_book_details(request).0;
            let row = after.books.last();
            let listed = after.book_listing().last();
            &&& db.change_book_details(request).1 == Ok::<(), RouteError>(())
            &&& after.books == db.books.push(row)
            &&& after.users == db.users && after.authors == db.authors && after.borrows
                == db.borrows
            &&& !book_ids(db.books).contains(row.book_id)
            &&& row.title == request.title@ && row.author_id == request.author_id
                && row.publish_date == request.publish_date && row.publisher == request.publisher@
                && row.count == request.count && row.synopsis == request.synopsis@
                && row.language == DEFAULT_LANGUAGE@
            &&& after.book_listing().len() == db.books.len() + 1
            &&& listed == BookView {
                book_id: row.book_id,
                title: request.title@,
                author: db.author(request.author_id).unwrap(),
                publish_date: request.publish_date,
                publisher: request.publisher@,
                count: request.count,
                synopsis: request.synopsis@,
                can_be_borrowed: request.count > 0,
            }
        }),
{
    let after = db.change_book_details(request).0;
    let row = db.new_book(request);
    assert(after == db.with_book(row));
    lemma_next_id_is_fresh(book_ids(db.books));
    assert(!book_ids(db.books).contains(row.book_id)) by {
        if book_ids(db.books).contains(row.book_id) {
            let k = choose|k: int| 0 <= k < book_ids(db.books).len() && book_ids(db.books)[k]
                == row.book_id;
            assert(book_ids(db.books)[k] < next_id(book_ids(db.books)));
        }
    }
    assert(after.borrows_of_book(row.book_id).len() == 0) by {
        lemma_filter_empty(after.borrows, |b: BorrowRow| b.book_id == row.book_id);
        assert forall|i: int| 0 <= i < after.borrows.len() implies !(after.borrows[i].book_id
            == row.book_id) by {
            assert(book_ids(db.books).contains(db.borrows[i].book_id));
        }
    }
}

/// Whoever has signed up can log in: with the e-mail address and the
/// password of the sign-up, and a hash against which that password
/// verifies, the login answers what the sign-up answered.
pub proof fn law_login_after_signup(
    db: DatabaseView,
    name: Seq<char>,
    email: Seq<char>,
    password: Seq<char>,
    hash: Seq<char>,
)
    requires
        db.create_account_with(name, email, password, Some(hash)).1 is Ok,
        is_password_hash(hash),
        password_matches(password, hash),
    ensures
        ({
            let signed_up = db.create_account_with(name, email, password, Some(hash));
            signed_up.0.login(email, password) == signed_up.1
        }),
{
    let after = db.create_account_with(name, email, password, Some(hash)).0;
    let row = db.new_user(name, email, hash);
    assert(after == db.with_user(row));
    let emails = user_emails(after.users);
    lemma_index_of_first(user_emails(db.users), email);
    assert forall|j: int| 0 <= j < db.users.len() implies emails[j] != email by {
        assert(user_emails(db.users)[j] == emails[j]);
        assert(user_emails(db.users).contains(emails[j]));
    }
    lemma_first_index(emails, email, db.users.len() as int);
}

/// Changing what is recorded about a loan keeps the rule that no borrower
/// holds two active loans of one book.
pub proof fn law_record_keeps_one_loan_per_pair(db: DatabaseView, borrow_id: i64, data: BorrowData)
    requires
        db.one_loan_per_pair(),
    ensures
        db.with_borrow_data(borrow_id, data).one_loan_per_pair(),
{
    lemma_index_of_first(borrow_ids(db.borrows), borrow_id);
    let after = db.with_borrow_data(borrow_id, data);
    assert forall|i: int, j: int| 0 <= i < j < after.borrows.len() implies !((
    #[trigger] after.borrows[i]).book_id == (#[trigger] after.borrows[j]).book_id
        && after.borrows[i].user_id == after.borrows[j].user_id) by {
        assert(after.borrows[i].book_id == db.borrows[i].book_id);
        assert(after.borrows[j].book_id == db.borrows[j].book_id);
        assert(after.borrows[i].user_id == db.borrows[i].user_id);
        assert(after.borrows[j].user_id == db.borrows[j].user_id);
    }
}

/// Returning a book keeps the rule that no borrower holds two active loans
/// of one book, takes the loan away and leaves every other loan as it was.
pub proof fn law_return_book(db: DatabaseView, borrow_id: i64)
    requires
        db.wf(),
    ensures
        db.return_book(borrow_id).borrow(borrow_id) is None,
        db.one_loan_per_pair() ==> db.return_book(borrow_id).one_loan_per_pair(),
        forall|other: i64|
            other != borrow_id ==> #[trigger] db.return_book(borrow_id).borrow(other)
                == db.borrow(other),
        db.return_book(borrow_id).users == db.users,
        db.return_book(borrow_id).authors == db.authors,
        db.return_book(borrow_id).books == db.books,
{
    let ids = borrow_ids(db.borrows);
    let after = db.return_book(borrow_id);
    lemma_index_of_first(ids, borrow_id);
    lemma_index_of_first(borrow_ids(after.borrows), borrow_id);
    if let Some(i) = ids.index_of_first(borrow_id) {
        let before_at = |k: int| if k < i { k } else { k + 1 };
        assert(borrow_ids(after.borrows) =~= ids.remove(i));
        lemma_remove_key(ids, i);
        assert forall|k: int| 0 <= k < after.borrows.len() implies #[trigger] after.borrows[k]
            == db.borrows[before_at(k)] by {}
        assert forall|other: i64| other != borrow_id implies #[trigger] after.borrow(other)
            == db.borrow(other) by {
            lemma_index_of_first(ids, other);
            lemma_index_of_first(borrow_ids(after.borrows), other);
            match ids.index_of_first(other) {
                None => {
                    if borrow_ids(after.borrows).contains(other) {
                        let k = choose|k: int|
                            0 <= k < after.borrows.len() && borrow_ids(after.borrows)[k] == other;
                        assert(ids[before_at(k)] == other);
                    }
                },
                Some(k) => {
                    let moved = if k < i { k } else { k - 1 };
                    assert(borrow_ids(after.borrows)[moved] == other);
                    let found = borrow_ids(after.borrows).index_of_first(other).unwrap();
                    assert(ids[before_at(found)] == other);
                },
            }
        }
    }
}

/// A role changes in one way only: whatever promoting does, every account
/// keeps its place, its name, its address and its password, and its kind is
/// what it was or a librarian's.
pub proof fn law_promotion_is_one_way(db: DatabaseView, requester: i64, target: i64)
    ensures
        ({
            let after = db.promote_user(requester, target).0;
            &&& after.users.len() == db.users.len()
            &&& after.authors == db.authors && after.books == db.books && after.borrows
                == db.borrows
            &&& forall|i: int|
                0 <= i < db.users.len() ==> {
                    &&& (#[trigger] after.users[i]).user_id == db.users[i].user_id
                    &&& after.users[i].name == db.users[i].name
                    &&& after.users[i].email == db.users[i].email
                    &&& after.users[i].password == db.users[i].password
                    &&& after.users[i].kind == db.users[i].kind || (after.users[i].kind
                        == LIBRARIAN && after.users[i].user_id == target)
                }
        }),
{
    lemma_index_of_first(user_ids(db.users), target);
}

/// After a librarian has promoted an account that exists, that account is a
/// librarian and passes where librarians pass.
pub proof fn law_promoted_is_librarian(db: DatabaseView, requester: i64, target: i64)
    requires
        db.require_librarian(requester) is Ok,
        db.user(target) is Some,
    ensures
        db.promote_user(requester, target).0.require_librarian(target) is Ok,
{
    lemma_index_of_first(user_ids(db.users), target);
    let after = db.promote_user(requester, target).0;
    let i = user_ids(db.users).index_of_first(target).unwrap();
    assert(user_ids(after.users) =~= user_ids(db.users));
}

/// An account is deleted only by a librarian, only if it is not the
/// librarian's own, and only if it holds no book; and no other account goes
/// with it.
pub proof fn law_delete_user_only_when_allowed(db: DatabaseView, requester: i64, target: i64)
    requires
        db.delete_user(requester, target).0 != db,
    ensures
        db.require_librarian(requester) is Ok,
        target != requester,
        db.borrows_of_user(target).len() == 0,
        db.delete_user(requester, target).1 == Ok::<DeleteUserReply, RouteError>(
            DeleteUserReply::Deleted,
        ),
        db.delete_user(requester, target).0.users.len() == db.users.len() - 1,
        db.delete_user(requester, target).0.borrows == db.borrows,
{
    lemma_index_of_first(user_ids(db.users), target);
}

/// The tables with the record of a loan replaced hold that loan with the new
/// record, under the same id, book and borrower.
pub proof fn lemma_borrow_after_record(db: DatabaseView, borrow_id: i64, data: BorrowData)
    requires
        db.borrow(borrow_id) is Some,
    ensures
        db.with_borrow_data(borrow_id, data).borrow(borrow_id) == Some(
            BorrowRow { data, ..db.borrow(borrow_id).unwrap() },
        ),
        db.with_borrow_data(borrow_id, data).borrows.len() == db.borrows.len(),
{
    let ids = borrow_ids(db.borrows);
    let after = db.with_borrow_data(borrow_id, data);
    lemma_index_of_first(ids, borrow_id);
    assert(borrow_ids(after.borrows) =~= ids);
}

/// A librarian who lengthens a loan by `days` days moves its deadline by
/// `days` times 86400 seconds, as long as an `i64` can hold the new one.
pub proof fn law_lengthen_moves_deadline(db: DatabaseView, requester: i64, borrow_id: i64, days: i64)
    requires
        db.require_librarian(requester) is Ok,
        db.borrow(borrow_id) matches Some(row) && i64::MIN <= row.data.valid_until + days
            * SECONDS_PER_DAY <= i64::MAX,
    ensures
        ({
            let before = db.borrow(borrow_id).unwrap();
            let after = db.lengthen_borrow_by(requester, borrow_id, days);
            &&& after.1 == Ok::<(), RouteError>(())
            &&& after.0.borrow(borrow_id) matches Some(row) && row.data.valid_until
                == before.data.valid_until + days * 86400 && row.data.chapters_read
                == before.data.chapters_read
        }),
{
    let row = db.borrow(borrow_id).unwrap();
    let valid_until = (row.data.valid_until + days * SECONDS_PER_DAY) as i64;
    lemma_borrow_after_record(db, borrow_id, BorrowData { valid_until, ..row.data });
}

/// A librarian who ends a loan at the moment `now` makes `now` its deadline:
/// from then on no day is left on it, and the loan is still there.
pub proof fn law_ended_borrow_is_due(
    db: DatabaseView,
    requester: i64,
    borrow_id: i64,
    now: i64,
    later: i64,
)
    requires
        db.require_librarian(requester) is Ok,
        db.borrow(borrow_id) is Some,
        now <= later,
    ensures
        ({
            let after = db.end_borrow_at(requester, borrow_id, now);
            &&& after.1 == Ok::<(), RouteError>(())
            &&& after.0.borrows.len() == db.borrows.len()
            &&& after.0.borrow(borrow_id) matches Some(row) && row.data.valid_until == now
                && days_between(later, row.data.valid_until) <= 0
        }),
{
    let row = db.borrow(borrow_id).unwrap();
    lemma_borrow_after_record(db, borrow_id, BorrowData { valid_until: now, ..row.data });
}

/// A loan that is recorded makes the book one copy scarcer: where the last
/// free copy is lent, the catalogue read afterwards says that the book
/// cannot be borrowed.
pub proof fn law_lent_copy_is_taken(db: DatabaseView, user_id: i64, book_id: i64, valid_until: i64)
    requires
        db.borrow_until(user_id, book_id, Some(valid_until)).0 != db,
    ensures
        ({
            let after = db.borrow_until(user_id, book_id, Some(valid_until)).0;
            &&& after.books == db.books
            &&& after.borrows_of_book(book_id).len() == db.borrows_of_book(book_id).len() + 1
            &&& db.book(book_id) matches Some(book) && (after.can_be_borrowed(book) <==> book.count
                > db.borrows_of_book(book_id).len() + 1)
        }),
{
    broadcast use Seq::lemma_filter_push;

    let after = db.borrow_until(user_id, book_id, Some(valid_until)).0;
    let row = db.new_borrow(user_id, book_id, valid_until);
    assert(after == db.with_borrow(row));
    assert(after.borrows_of_book(book_id) == db.borrows_of_book(book_id).push(row));
    lemma_index_of_first(book_ids(db.books), book_id);
}

} // verus!

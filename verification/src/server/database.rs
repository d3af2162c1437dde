//! The tables: accounts, authors, books and loans, with the constraints that
//! hold between them.

use vstd::prelude::*;

use crate::schema::books::{Author, AuthorView};
use crate::server::rows::{
    is_position, lemma_filter_empty, lemma_filter_step, lemma_first_index, lemma_index_of_first,
    lemma_no_index, lemma_remove_key,
};

verus! {

/// A row of the table of accounts.
#[derive(Debug, Clone, PartialEq, Eq)]
pub struct UserRow {
    pub user_id: i64,
    pub name: String,
    pub email: String,
    /// The password as it is kept: hashed, never in the clear.
    pub password: String,
    pub kind: i64,
}

/// What a [`UserRow`] is, as mathematics.
pub struct UserRecord {
    pub user_id: i64,
    pub name: Seq<char>,
    pub email: Seq<char>,
    pub password: Seq<char>,
    pub kind: i64,
}

impl View for UserRow {
    type V = UserRecord;

    open spec fn view(&self) -> UserRecord {
        UserRecord {
            user_id: self.user_id,
            name: self.name@,
            email: self.email@,
            password: self.password@,
            kind: self.kind,
        }
    }
}

/// A row of the table of books.
#[derive(Debug, Clone, PartialEq, Eq)]
pub struct BookRow {
    pub book_id: i64,
    pub title: String,
    pub author_id: i64,
    pub publish_date: i64,
    pub publisher: String,
    /// How many copies the library owns.
    pub count: i64,
    pub synopsis: String,
    pub language: String,
}

/// What a [`BookRow`] is, as mathematics.
pub struct BookRecord {
    pub book_id: i64,
    pub title: Seq<char>,
    pub author_id: i64,
    pub publish_date: i64,
    pub publisher: Seq<char>,
    pub count: i64,
    pub synopsis: Seq<char>,
    pub language: Seq<char>,
}

impl View for BookRow {
    type V = BookRecord;

    open spec fn view(&self) -> BookRecord {
        BookRecord {
            book_id: self.book_id,
            title: self.title@,
            author_id: self.author_id,
            publish_date: self.publish_date,
            publisher: self.publisher@,
            count: self.count,
            synopsis: self.synopsis@,
            language: self.language@,
        }
    }
}

/// What is recorded about a loan while it runs.
#[derive(Debug, Clone, Copy, PartialEq, Eq)]
pub struct BorrowData {
    /// The deadline, in seconds since the Unix epoch.
    pub valid_until: i64,
    pub chapters_read: i64,
}

/// A row of the table of loans. A loan is active for as long as its row is
/// there; its [`BorrowData`] comes and goes with it.
#[derive(Debug, Clone, Copy, PartialEq, Eq)]
pub struct BorrowRow {
    pub borrow_id: i64,
    pub book_id: i64,
    pub user_id: i64,
    pub data: BorrowData,
}

pub open spec fn user_ids(users: Seq<UserRecord>) -> Seq<i64> {
    users.map_values(|u: UserRecord| u.user_id)
}

pub open spec fn user_emails(users: Seq<UserRecord>) -> Seq<Seq<char>> {
    users.map_values(|u: UserRecord| u.email)
}

pub open spec fn author_ids(authors: Seq<AuthorView>) -> Seq<i64> {
    authors.map_values(|a: AuthorView| a.author_id)
}

pub open spec fn book_ids(books: Seq<BookRecord>) -> Seq<i64> {
    books.map_values(|b: BookRecord| b.book_id)
}

pub open spec fn borrow_ids(borrows: Seq<BorrowRow>) -> Seq<i64> {
    borrows.map_values(|b: BorrowRow| b.borrow_id)
}

/// The largest of `ids`, or 0 where none is positive.
pub open spec fn max_id(ids: Seq<i64>) -> int
    decreases ids.len(),
{
    if ids.len() == 0 {
        0
    } else {
        let rest = max_id(ids.drop_last());
        if ids.last() > rest {
            ids.last() as int
        } else {
            rest
        }
    }
}

/// The id that the next row of a table gets: one more than the largest in
/// use, and 1 in an empty table.
pub open spec fn next_id(ids: Seq<i64>) -> int {
    max_id(ids) + 1
}

/// No id is as large as the next one.
pub proof fn lemma_next_id_is_fresh(ids: Seq<i64>)
    ensures
        forall|i: int| 0 <= i < ids.len() ==> ids[i] < next_id(ids),
        next_id(ids) >= 1,
    decreases ids.len(),
{
    if ids.len() > 0 {
        lemma_next_id_is_fresh(ids.drop_last());
        assert forall|i: int| 0 <= i < ids.len() implies ids[i] < next_id(ids) by {
            if i < ids.len() - 1 {
                assert(ids.drop_last()[i] == ids[i]);
            }
        }
    }
}

/// The tables, as mathematics.
#[verifier::ext_equal]
pub struct DatabaseView {
    pub users: Seq<UserRecord>,
    pub authors: Seq<AuthorView>,
    pub books: Seq<BookRecord>,
    pub borrows: Seq<BorrowRow>,
}

impl DatabaseView {
    /// The constraints of the schema: ids and e-mail addresses are unique,
    /// every book has its author, every loan its book and its borrower, and
    /// no progress is negative.
    pub open spec fn wf(self) -> bool {
        &&& user_ids(self.users).no_duplicates()
        &&& user_emails(self.users).no_duplicates()
        &&& author_ids(self.authors).no_duplicates()
        &&& book_ids(self.books).no_duplicates()
        &&& borrow_ids(self.borrows).no_duplicates()
        &&& forall|i: int|
            0 <= i < self.books.len() ==> author_ids(self.authors).contains(
                (#[trigger] self.books[i]).author_id,
            )
        &&& forall|i: int|
            0 <= i < self.borrows.len() ==> {
                &&& book_ids(self.books).contains((#[trigger] self.borrows[i]).book_id)
                &&& user_ids(self.users).contains(self.borrows[i].user_id)
                &&& self.borrows[i].data.chapters_read >= 0
            }
    }

    /// The account with this id.
    pub open spec fn user(self, user_id: i64) -> Option<UserRecord> {
        match user_ids(self.users).index_of_first(user_id) {
            Some(i) => Some(self.users[i]),
            None => None,
        }
    }

    /// The account registered under this e-mail address.
    pub open spec fn user_by_email(self, email: Seq<char>) -> Option<UserRecord> {
        match user_emails(self.users).index_of_first(email) {
            Some(i) => Some(self.users[i]),
            None => None,
        }
    }

    /// The author with this id.
    pub open spec fn author(self, author_id: i64) -> Option<AuthorView> {
        match author_ids(self.authors).index_of_first(author_id) {
            Some(i) => Some(self.authors[i]),
            None => None,
        }
    }

    /// The book with this id.
    pub open spec fn book(self, book_id: i64) -> Option<BookRecord> {
        match book_ids(self.books).index_of_first(book_id) {
            Some(i) => Some(self.books[i]),
            None => None,
        }
    }

    /// The loan with this id.
    pub open spec fn borrow(self, borrow_id: i64) -> Option<BorrowRow> {
        match borrow_ids(self.borrows).index_of_first(borrow_id) {
            Some(i) => Some(self.borrows[i]),
            None => None,
        }
    }

    /// The active loans of one borrower.
    pub open spec fn borrows_of_user(self, user_id: i64) -> Seq<BorrowRow> {
        self.borrows.filter(|b: BorrowRow| b.user_id == user_id)
    }

    /// The active loans of one book.
    pub open spec fn borrows_of_book(self, book_id: i64) -> Seq<BorrowRow> {
        self.borrows.filter(|b: BorrowRow| b.book_id == book_id)
    }

    /// The active loans of one book to one borrower.
    pub open spec fn borrows_of_pair(self, book_id: i64, user_id: i64) -> Seq<BorrowRow> {
        self.borrows.filter(|b: BorrowRow| b.book_id == book_id && b.user_id == user_id)
    }

    /// A copy of the book is free: the library owns more copies than are out
    /// on loan.
    pub open spec fn can_be_borrowed(self, book: BookRecord) -> bool {
        book.count > self.borrows_of_book(book.book_id).len()
    }

    /// No borrower holds two active loans of one book.
    pub open spec fn one_loan_per_pair(self) -> bool {
        forall|i: int, j: int|
            0 <= i < j < self.borrows.len() ==> !((#[trigger] self.borrows[i]).book_id
                == (#[trigger] self.borrows[j]).book_id && self.borrows[i].user_id
                == self.borrows[j].user_id)
    }
}

impl DatabaseView {
    /// The tables with one more loan.
    pub open spec fn with_borrow(self, row: BorrowRow) -> DatabaseView {
        DatabaseView { borrows: self.borrows.push(row), ..self }
    }

    /// The tables with one more account.
    pub open spec fn with_user(self, row: UserRecord) -> DatabaseView {
        DatabaseView { users: self.users.push(row), ..self }
    }

    /// The tables with one more author.
    pub open spec fn with_author(self, row: AuthorView) -> DatabaseView {
        DatabaseView { authors: self.authors.push(row), ..self }
    }

    /// The tables with one more book.
    pub open spec fn with_book(self, row: BookRecord) -> DatabaseView {
        DatabaseView { books: self.books.push(row), ..self }
    }

    /// A loan with an unused id, of a book and to a borrower that exist, may
    /// join the tables.
    pub proof fn lemma_with_borrow_wf(self, row: BorrowRow)
        requires
            self.wf(),
            !borrow_ids(self.borrows).contains(row.borrow_id),
            book_ids(self.books).contains(row.book_id),
            user_ids(self.users).contains(row.user_id),
            row.data.chapters_read >= 0,
        ensures
            self.with_borrow(row).wf(),
    {
        let after = self.with_borrow(row);
        let ids = borrow_ids(self.borrows);
        assert(borrow_ids(after.borrows) =~= ids.push(row.borrow_id));
        assert forall|i: int, j: int|
            0 <= i < ids.len() + 1 && 0 <= j < ids.len() + 1 && i != j implies ids.push(
            row.borrow_id,
        )[i] != ids.push(row.borrow_id)[j] by {
            if i < ids.len() && j < ids.len() {
            } else if i < ids.len() {
                assert(ids[i] != row.borrow_id);
            } else {
                assert(ids[j] != row.borrow_id);
            }
        }
        assert forall|i: int| 0 <= i < after.borrows.len() implies {
            &&& book_ids(after.books).contains((#[trigger] after.borrows[i]).book_id)
            &&& user_ids(after.users).contains(after.borrows[i].user_id)
            &&& after.borrows[i].data.chapters_read >= 0
        } by {
            if i < self.borrows.len() {
                assert(after.borrows[i] == self.borrows[i]);
            }
        }
    }

    /// An account with an unused id and an unused e-mail address may join
    /// the tables.
    pub proof fn lemma_with_user_wf(self, row: UserRecord)
        requires
            self.wf(),
            !user_ids(self.users).contains(row.user_id),
            !user_emails(self.users).contains(row.email),
        ensures
            self.with_user(row).wf(),
    {
        let after = self.with_user(row);
        let ids = user_ids(self.users);
        let emails = user_emails(self.users);
        assert(user_ids(after.users) =~= ids.push(row.user_id));
        assert(user_emails(after.users) =~= emails.push(row.email));
        assert forall|i: int, j: int|
            0 <= i < ids.len() + 1 && 0 <= j < ids.len() + 1 && i != j implies ids.push(
            row.user_id,
        )[i] != ids.push(row.user_id)[j] by {
            if i < ids.len() && j < ids.len() {
            } else if i < ids.len() {
                assert(ids[i] != row.user_id);
            } else {
                assert(ids[j] != row.user_id);
            }
        }
        assert forall|i: int, j: int|
            0 <= i < emails.len() + 1 && 0 <= j < emails.len() + 1 && i != j implies emails.push(
            row.email,
        )[i] != emails.push(row.email)[j] by {
            if i < emails.len() && j < emails.len() {
            } else if i < emails.len() {
                assert(emails[i] != row.email);
            } else {
                assert(emails[j] != row.email);
            }
        }
        assert forall|i: int| 0 <= i < after.borrows.len() implies {
            &&& book_ids(after.books).contains((#[trigger] after.borrows[i]).book_id)
            &&& user_ids(after.users).contains(after.borrows[i].user_id)
            &&& after.borrows[i].data.chapters_read >= 0
        } by {
            let id = self.borrows[i].user_id;
            assert(ids.contains(id));
            let k = choose|k: int| 0 <= k < ids.len() && ids[k] == id;
            assert(user_ids(after.users)[k] == id);
        }
    }

    /// An author with an unused id may join the tables.
    pub proof fn lemma_with_author_wf(self, row: AuthorView)
        requires
            self.wf(),
            !author_ids(self.authors).contains(row.author_id),
        ensures
            self.with_author(row).wf(),
    {
        let after = self.with_author(row);
        let ids = author_ids(self.authors);
        assert(author_ids(after.authors) =~= ids.push(row.author_id));
        assert forall|i: int, j: int|
            0 <= i < ids.len() + 1 && 0 <= j < ids.len() + 1 && i != j implies ids.push(
            row.author_id,
        )[i] != ids.push(row.author_id)[j] by {
            if i < ids.len() && j < ids.len() {
            } else if i < ids.len() {
                assert(ids[i] != row.author_id);
            } else {
                assert(ids[j] != row.author_id);
            }
        }
        assert forall|i: int| 0 <= i < after.books.len() implies author_ids(
            after.authors,
        ).contains((#[trigger] after.books[i]).author_id) by {
            let id = self.books[i].author_id;
            assert(ids.contains(id));
            let k = choose|k: int| 0 <= k < ids.len() && ids[k] == id;
            assert(author_ids(after.authors)[k] == id);
        }
    }

    /// A book with an unused id, by an author that exists, may join the
    /// tables.
    pub proof fn lemma_with_book_wf(self, row: BookRecord)
        requires
            self.wf(),
            !book_ids(self.books).contains(row.book_id),
            author_ids(self.authors).contains(row.author_id),
        ensures
            self.with_book(row).wf(),
    {
        let after = self.with_book(row);
        let ids = book_ids(self.books);
        assert(book_ids(after.books) =~= ids.push(row.book_id));
        assert forall|i: int, j: int|
            0 <= i < ids.len() + 1 && 0 <= j < ids.len() + 1 && i != j implies ids.push(
            row.book_id,
        )[i] != ids.push(row.book_id)[j] by {
            if i < ids.len() && j < ids.len() {
            } else if i < ids.len() {
                assert(ids[i] != row.book_id);
            } else {
                assert(ids[j] != row.book_id);
            }
        }
        assert forall|i: int| 0 <= i < after.books.len() implies author_ids(
            after.authors,
        ).contains((#[trigger] after.books[i]).author_id) by {
            if i < self.books.len() {
                assert(after.books[i] == self.books[i]);
            }
        }
        assert forall|i: int| 0 <= i < after.borrows.len() implies {
            &&& book_ids(after.books).contains((#[trigger] after.borrows[i]).book_id)
            &&& user_ids(after.users).contains(after.borrows[i].user_id)
            &&& after.borrows[i].data.chapters_read >= 0
        } by {
            let id = self.borrows[i].book_id;
            assert(ids.contains(id));
            let k = choose|k: int| 0 <= k < ids.len() && ids[k] == id;
            assert(book_ids(after.books)[k] == id);
        }
    }
}

impl DatabaseView {
    /// A changed account that keeps its id and its e-mail address may take
    /// the place of the old one.
    pub proof fn lemma_update_user_wf(self, i: int, row: UserRecord)
        requires
            self.wf(),
            0 <= i < self.users.len(),
            row.user_id == self.users[i].user_id,
            row.email == self.users[i].email,
        ensures
            (DatabaseView { users: self.users.update(i, row), ..self }).wf(),
    {
        let after = DatabaseView { users: self.users.update(i, row), ..self };
        assert(user_ids(after.users) =~= user_ids(self.users));
        assert(user_emails(after.users) =~= user_emails(self.users));
    }

    /// An account that holds no book may leave the tables.
    pub proof fn lemma_remove_user_wf(self, i: int)
        requires
            self.wf(),
            0 <= i < self.users.len(),
            self.borrows_of_user(self.users[i].user_id).len() == 0,
        ensures
            (DatabaseView { users: self.users.remove(i), ..self }).wf(),
    {
        let after = DatabaseView { users: self.users.remove(i), ..self };
        let gone = self.users[i].user_id;
        assert(user_ids(after.users) =~= user_ids(self.users).remove(i));
        assert(user_emails(after.users) =~= user_emails(self.users).remove(i));
        lemma_remove_key(user_ids(self.users), i);
        lemma_remove_key(user_emails(self.users), i);
        lemma_filter_empty(self.borrows, |b: BorrowRow| b.user_id == gone);
        assert forall|k: int| 0 <= k < after.borrows.len() implies {
            &&& book_ids(after.books).contains((#[trigger] after.borrows[k]).book_id)
            &&& user_ids(after.users).contains(after.borrows[k].user_id)
            &&& after.borrows[k].data.chapters_read >= 0
        } by {
            assert(self.borrows[k].user_id != gone);
            assert(user_ids(self.users).contains(self.borrows[k].user_id));
        }
    }

    /// A changed book that keeps its id and names an author that exists may
    /// take the place of the old one.
    pub proof fn lemma_update_book_wf(self, i: int, row: BookRecord)
        requires
            self.wf(),
            0 <= i < self.books.len(),
            row.book_id == self.books[i].book_id,
            author_ids(self.authors).contains(row.author_id),
        ensures
            (DatabaseView { books: self.books.update(i, row), ..self }).wf(),
    {
        let after = DatabaseView { books: self.books.update(i, row), ..self };
        assert(book_ids(after.books) =~= book_ids(self.books));
        assert forall|k: int| 0 <= k < after.books.len() implies author_ids(
            after.authors,
        ).contains((#[trigger] after.books[k]).author_id) by {
            if k != i {
                assert(after.books[k] == self.books[k]);
            }
        }
    }

    /// A book of which no copy is out on loan may leave the tables.
    pub proof fn lemma_remove_book_wf(self, i: int)
        requires
            self.wf(),
            0 <= i < self.books.len(),
            self.borrows_of_book(self.books[i].book_id).len() == 0,
        ensures
            (DatabaseView { books: self.books.remove(i), ..self }).wf(),
    {
        let after = DatabaseView { books: self.books.remove(i), ..self };
        let gone = self.books[i].book_id;
        assert(book_ids(after.books) =~= book_ids(self.books).remove(i));
        lemma_remove_key(book_ids(self.books), i);
        lemma_filter_empty(self.borrows, |b: BorrowRow| b.book_id == gone);
        assert forall|k: int| 0 <= k < after.books.len() implies author_ids(
            after.authors,
        ).contains((#[trigger] after.books[k]).author_id) by {
            assert(after.books[k] == self.books[if k < i {
                k
            } else {
                k + 1
            }]);
        }
        assert forall|k: int| 0 <= k < after.borrows.len() implies {
            &&& book_ids(after.books).contains((#[trigger] after.borrows[k]).book_id)
            &&& user_ids(after.users).contains(after.borrows[k].user_id)
            &&& after.borrows[k].data.chapters_read >= 0
        } by {
            assert(self.borrows[k].book_id != gone);
            assert(book_ids(self.books).contains(self.borrows[k].book_id));
        }
    }

    /// A loan whose record changes, but not to a negative progress, may take
    /// the place of the old one.
    pub proof fn lemma_update_borrow_wf(self, i: int, data: BorrowData)
        requires
            self.wf(),
            0 <= i < self.borrows.len(),
            data.chapters_read >= 0,
        ensures
            (DatabaseView {
                borrows: self.borrows.update(i, BorrowRow { data, ..self.borrows[i] }),
                ..self
            }).wf(),
    {
        let after = DatabaseView {
            borrows: self.borrows.update(i, BorrowRow { data, ..self.borrows[i] }),
            ..self
        };
        assert(borrow_ids(after.borrows) =~= borrow_ids(self.borrows));
        assert forall|k: int| 0 <= k < after.borrows.len() implies {
            &&& book_ids(after.books).contains((#[trigger] after.borrows[k]).book_id)
            &&& user_ids(after.users).contains(after.borrows[k].user_id)
            &&& after.borrows[k].data.chapters_read >= 0
        } by {
            if k != i {
                assert(after.borrows[k] == self.borrows[k]);
            } else {
                assert(self.borrows[i].book_id == after.borrows[k].book_id);
            }
        }
    }

    /// Any loan may leave the tables.
    pub proof fn lemma_remove_borrow_wf(self, i: int)
        requires
            self.wf(),
            0 <= i < self.borrows.len(),
        ensures
            (DatabaseView { borrows: self.borrows.remove(i), ..self }).wf(),
    {
        let after = DatabaseView { borrows: self.borrows.remove(i), ..self };
        assert(borrow_ids(after.borrows) =~= borrow_ids(self.borrows).remove(i));
        lemma_remove_key(borrow_ids(self.borrows), i);
        assert forall|k: int| 0 <= k < after.borrows.len() implies {
            &&& book_ids(after.books).contains((#[trigger] after.borrows[k]).book_id)
            &&& user_ids(after.users).contains(after.borrows[k].user_id)
            &&& after.borrows[k].data.chapters_read >= 0
        } by {
            assert(after.borrows[k] == self.borrows[if k < i {
                k
            } else {
                k + 1
            }]);
        }
    }
}

/// The tables themselves.
#[derive(Debug, Clone, PartialEq, Eq)]
pub struct Database {
    pub users: Vec<UserRow>,
    pub authors: Vec<Author>,
    pub books: Vec<BookRow>,
    pub borrows: Vec<BorrowRow>,
}

impl View for Database {
    type V = DatabaseView;

    open spec fn view(&self) -> DatabaseView {
        DatabaseView {
            users: self.users@.map_values(|r: UserRow| r@),
            authors: self.authors@.map_values(|a: Author| a@),
            books: self.books@.map_values(|r: BookRow| r@),
            borrows: self.borrows@,
        }
    }
}

/// Whether no key occurs twice.
pub fn all_different(keys: &Vec<i64>) -> (different: bool)
    ensures
        different == keys@.no_duplicates(),
{
    let mut i: usize = 0;
    while i < keys.len()
        invariant
            i <= keys.len(),
            forall|a: int, b: int| 0 <= a < i && a < b < keys.len() ==> keys@[a] != keys@[b],
        decreases keys.len() - i,
    {
        let mut j: usize = i + 1;
        while j < keys.len()
            invariant
                i < j <= keys.len(),
                forall|b: int| i < b < j ==> keys@[i as int] != keys@[b],
            decreases keys.len() - j,
        {
            if keys[i] == keys[j] {
                return false;
            }
            j += 1;
        }
        i += 1;
    }
    true
}

/// The id for the next row of a table whose ids are `ids`, unless the ids
/// have run out.
pub fn fresh_id(ids: &Vec<i64>) -> (id: Option<i64>)
    ensures
        id matches Some(n) ==> n == next_id(ids@),
        id is None ==> next_id(ids@) > i64::MAX,
{
    let mut largest: i64 = 0;
    let mut i: usize = 0;
    while i < ids.len()
        invariant
            i <= ids.len(),
            largest == max_id(ids@.take(i as int)),
        decreases ids.len() - i,
    {
        proof {
            assert(ids@.take(i + 1).drop_last() =~= ids@.take(i as int));
        }
        if ids[i] > largest {
            largest = ids[i];
        }
        i += 1;
    }
    proof {
        assert(ids@.take(ids.len() as int) =~= ids@);
    }
    if largest < i64::MAX {
        Some(largest + 1)
    } else {
        None
    }
}

impl Database {
    /// Four empty tables.
    pub fn new() -> (db: Database)
        ensures
            db@.wf(),
            db@.users.len() == 0,
            db@.authors.len() == 0,
            db@.books.len() == 0,
            db@.borrows.len() == 0,
    {
        Database { users: Vec::new(), authors: Vec::new(), books: Vec::new(), borrows: Vec::new() }
    }

    /// Where the account with this id stands in its table.
    pub fn find_user(&self, user_id: i64) -> (found: Option<usize>)
        ensures
            is_position(user_ids(self@.users), user_id, found),
    {
        let mut i: usize = 0;
        while i < self.users.len()
            invariant
                i <= self.users.len(),
                forall|j: int| 0 <= j < i ==> user_ids(self@.users)[j] != user_id,
            decreases self.users.len() - i,
        {
            if self.users[i].user_id == user_id {
                proof {
                    lemma_first_index(user_ids(self@.users), user_id, i as int);
                }
                return Some(i);
            }
            i += 1;
        }
        proof {
            lemma_no_index(user_ids(self@.users), user_id);
        }
        None
    }

    /// Where the account registered under this e-mail address stands in its
    /// table.
    pub fn find_user_by_email(&self, email: &String) -> (found: Option<usize>)
        ensures
            is_position(user_emails(self@.users), email@, found),
    {
        let mut i: usize = 0;
        while i < self.users.len()
            invariant
                i <= self.users.len(),
                forall|j: int| 0 <= j < i ==> user_emails(self@.users)[j] != email@,
            decreases self.users.len() - i,
        {
            if self.users[i].email == *email {
                proof {
                    lemma_first_index(user_emails(self@.users), email@, i as int);
                }
                return Some(i);
            }
            i += 1;
        }
        proof {
            lemma_no_index(user_emails(self@.users), email@);
        }
        None
    }

    /// Where the author with this id stands in its table.
    pub fn find_author(&self, author_id: i64) -> (found: Option<usize>)
        ensures
            is_position(author_ids(self@.authors), author_id, found),
    {
        let mut i: usize = 0;
        while i < self.authors.len()
            invariant
                i <= self.authors.len(),
                forall|j: int| 0 <= j < i ==> author_ids(self@.authors)[j] != author_id,
            decreases self.authors.len() - i,
        {
            if self.authors[i].author_id == author_id {
                proof {
                    lemma_first_index(author_ids(self@.authors), author_id, i as int);
                }
                return Some(i);
            }
            i += 1;
        }
        proof {
            lemma_no_index(author_ids(self@.authors), author_id);
        }
        None
    }

    /// Where the book with this id stands in its table.
    pub fn find_book(&self, book_id: i64) -> (found: Option<usize>)
        ensures
            is_position(book_ids(self@.books), book_id, found),
    {
        let mut i: usize = 0;
        while i < self.books.len()
            invariant
                i <= self.books.len(),
                forall|j: int| 0 <= j < i ==> book_ids(self@.books)[j] != book_id,
            decreases self.books.len() - i,
        {
            if self.books[i].book_id == book_id {
                proof {
                    lemma_first_index(book_ids(self@.books), book_id, i as int);
                }
                return Some(i);
            }
            i += 1;
        }
        proof {
            lemma_no_index(book_ids(self@.books), book_id);
        }
        None
    }

    /// Where the loan with this id stands in its table.
    pub fn find_borrow(&self, borrow_id: i64) -> (found: Option<usize>)
        ensures
            is_position(borrow_ids(self@.borrows), borrow_id, found),
    {
        let mut i: usize = 0;
        while i < self.borrows.len()
            invariant
                i <= self.borrows.len(),
                forall|j: int| 0 <= j < i ==> borrow_ids(self@.borrows)[j] != borrow_id,
            decreases self.borrows.len() - i,
        {
            if self.borrows[i].borrow_id == borrow_id {
                proof {
                    lemma_first_index(borrow_ids(self@.borrows), borrow_id, i as int);
                }
                return Some(i);
            }
            i += 1;
        }
        proof {
            lemma_no_index(borrow_ids(self@.borrows), borrow_id);
        }
        None
    }

    /// How many active loans one borrower holds.
    pub fn count_borrows_of_user(&self, user_id: i64) -> (count: usize)
        ensures
            count == self@.borrows_of_user(user_id).len(),
    {
        let ghost pred = |b: BorrowRow| b.user_id == user_id;
        let mut count: usize = 0;
        let mut i: usize = 0;
        while i < self.borrows.len()
            invariant
                i <= self.borrows.len(),
                count <= i,
                pred == (|b: BorrowRow| b.user_id == user_id),
                count == self.borrows@.take(i as int).filter(pred).len(),
            decreases self.borrows.len() - i,
        {
            proof {
                lemma_filter_step(self.borrows@, pred, i as int);
            }
            if self.borrows[i].user_id == user_id {
                count += 1;
            }
            i += 1;
        }
        proof {
            assert(self.borrows@.take(self.borrows.len() as int) =~= self.borrows@);
        }
        count
    }

    /// How many copies of one book are out on loan.
    pub fn count_borrows_of_book(&self, book_id: i64) -> (count: usize)
        ensures
            count == self@.borrows_of_book(book_id).len(),
    {
        let ghost pred = |b: BorrowRow| b.book_id == book_id;
        let mut count: usize = 0;
        let mut i: usize = 0;
        while i < self.borrows.len()
            invariant
                i <= self.borrows.len(),
                count <= i,
                pred == (|b: BorrowRow| b.book_id == book_id),
                count == self.borrows@.take(i as int).filter(pred).len(),
            decreases self.borrows.len() - i,
        {
            proof {
                lemma_filter_step(self.borrows@, pred, i as int);
            }
            if self.borrows[i].book_id == book_id {
                count += 1;
            }
            i += 1;
        }
        proof {
            assert(self.borrows@.take(self.borrows.len() as int) =~= self.borrows@);
        }
        count
    }

    /// How many active loans of one book one borrower holds.
    pub fn count_borrows_of_pair(&self, book_id: i64, user_id: i64) -> (count: usize)
        ensures
            count == self@.borrows_of_pair(book_id, user_id).len(),
    {
        let ghost pred = |b: BorrowRow| b.book_id == book_id && b.user_id == user_id;
        let mut count: usize = 0;
        let mut i: usize = 0;
        while i < self.borrows.len()
            invariant
                i <= self.borrows.len(),
                count <= i,
                pred == (|b: BorrowRow| b.book_id == book_id && b.user_id == user_id),
                count == self.borrows@.take(i as int).filter(pred).len(),
            decreases self.borrows.len() - i,
        {
            proof {
                lemma_filter_step(self.borrows@, pred, i as int);
            }
            if self.borrows[i].book_id == book_id && self.borrows[i].user_id == user_id {
                count += 1;
            }
            i += 1;
        }
        proof {
            assert(self.borrows@.take(self.borrows.len() as int) =~= self.borrows@);
        }
        count
    }

    /// The ids of the accounts, in table order.
    pub fn user_id_list(&self) -> (ids: Vec<i64>)
        ensures
            ids@ == user_ids(self@.users),
    {
        let mut ids: Vec<i64> = Vec::new();
        let mut i: usize = 0;
        while i < self.users.len()
            invariant
                i <= self.users.len(),
                ids@ == user_ids(self@.users).take(i as int),
            decreases self.users.len() - i,
        {
            ids.push(self.users[i].user_id);
            i += 1;
        }
        ids
    }

    /// The ids of the authors, in table order.
    pub fn author_id_list(&self) -> (ids: Vec<i64>)
        ensures
            ids@ == author_ids(self@.authors),
    {
        let mut ids: Vec<i64> = Vec::new();
        let mut i: usize = 0;
        while i < self.authors.len()
            invariant
                i <= self.authors.len(),
                ids@ == author_ids(self@.authors).take(i as int),
            decreases self.authors.len() - i,
        {
            ids.push(self.authors[i].author_id);
            i += 1;
        }
        ids
    }

    /// The ids of the books, in table order.
    pub fn book_id_list(&self) -> (ids: Vec<i64>)
        ensures
            ids@ == book_ids(self@.books),
    {
        let mut ids: Vec<i64> = Vec::new();
        let mut i: usize = 0;
        while i < self.books.len()
            invariant
                i <= self.books.len(),
                ids@ == book_ids(self@.books).take(i as int),
            decreases self.books.len() - i,
        {
            ids.push(self.books[i].book_id);
            i += 1;
        }
        ids
    }

    /// The ids of the loans, in table order.
    pub fn borrow_id_list(&self) -> (ids: Vec<i64>)
        ensures
            ids@ == borrow_ids(self@.borrows),
    {
        let mut ids: Vec<i64> = Vec::new();
        let mut i: usize = 0;
        while i < self.borrows.len()
            invariant
                i <= self.borrows.len(),
                ids@ == borrow_ids(self@.borrows).take(i as int),
            decreases self.borrows.len() - i,
        {
            ids.push(self.borrows[i].borrow_id);
            i += 1;
        }
        ids
    }

    /// Whether no e-mail address is registered twice.
    pub fn emails_are_different(&self) -> (different: bool)
        ensures
            different == user_emails(self@.users).no_duplicates(),
    {
        let ghost emails = user_emails(self@.users);
        let mut i: usize = 0;
        while i < self.users.len()
            invariant
                i <= self.users.len(),
                emails == user_emails(self@.users),
                forall|a: int, b: int|
                    0 <= a < i && a < b < emails.len() ==> emails[a] != emails[b],
            decreases self.users.len() - i,
        {
            let mut j: usize = i + 1;
            while j < self.users.len()
                invariant
                    i < j <= self.users.len(),
                    emails == user_emails(self@.users),
                    forall|b: int| i < b < j ==> emails[i as int] != emails[b],
                decreases self.users.len() - j,
            {
                if self.users[i].email == self.users[j].email {
                    assert(emails[i as int] == emails[j as int]);
                    return false;
                }
                j += 1;
            }
            i += 1;
        }
        true
    }

    /// Whether every book has its author.
    fn books_have_authors(&self) -> (ok: bool)
        ensures
            ok == forall|i: int|
                0 <= i < self@.books.len() ==> author_ids(self@.authors).contains(
                    (#[trigger] self@.books[i]).author_id,
                ),
    {
        let mut i: usize = 0;
        while i < self.books.len()
            invariant
                i <= self.books.len(),
                forall|k: int|
                    0 <= k < i ==> author_ids(self@.authors).contains(
                        (#[trigger] self@.books[k]).author_id,
                    ),
            decreases self.books.len() - i,
        {
            proof {
                lemma_index_of_first(author_ids(self@.authors), self@.books[i as int].author_id);
            }
            if self.find_author(self.books[i].author_id).is_none() {
                return false;
            }
            i += 1;
        }
        true
    }

    /// Whether every loan has its book and its borrower, and a progress that
    /// is not negative.
    fn borrows_are_sound(&self) -> (ok: bool)
        ensures
            ok == forall|i: int|
                0 <= i < self@.borrows.len() ==> {
                    &&& book_ids(self@.books).contains((#[trigger] self@.borrows[i]).book_id)
                    &&& user_ids(self@.users).contains(self@.borrows[i].user_id)
                    &&& self@.borrows[i].data.chapters_read >= 0
                },
    {
        let mut i: usize = 0;
        while i < self.borrows.len()
            invariant
                i <= self.borrows.len(),
                forall|k: int|
                    0 <= k < i ==> {
                        &&& book_ids(self@.books).contains((#[trigger] self@.borrows[k]).book_id)
                        &&& user_ids(self@.users).contains(self@.borrows[k].user_id)
                        &&& self@.borrows[k].data.chapters_read >= 0
                    },
            decreases self.borrows.len() - i,
        {
            let row = self.borrows[i];
            proof {
                lemma_index_of_first(book_ids(self@.books), row.book_id);
                lemma_index_of_first(user_ids(self@.users), row.user_id);
            }
            if self.find_book(row.book_id).is_none() || self.find_user(row.user_id).is_none()
                || row.data.chapters_read < 0 {
                assert(self@.borrows[i as int] == row);
                return false;
            }
            i += 1;
        }
        true
    }

    /// Whether the tables meet the constraints of the schema.
    pub fn is_well_formed(&self) -> (ok: bool)
        ensures
            ok == self@.wf(),
    {
        let users = self.user_id_list();
        let authors = self.author_id_list();
        let books = self.book_id_list();
        let borrows = self.borrow_id_list();
        all_different(&users) && self.emails_are_different() && all_different(&authors)
            && all_different(&books) && all_different(&borrows) && self.books_have_authors()
            && self.borrows_are_sound()
    }
}

} // verus!

//! The catalogue and the loans.

use vstd::prelude::*;

use crate::schema::books::{
    Author, AuthorView, Book, BookView, Borrow, BorrowReply, BorrowRequest, BorrowedBook,
    BorrowsRequest, ChangeAuthorDetailsRequest, ChangeBookDetailsRequest,
};
use crate::schema::session::Cookie;
use crate::server::clock::{deadline_after_days, now_timestamp};
use crate::server::database::{
    author_ids, book_ids, borrow_ids, fresh_id, lemma_next_id_is_fresh, next_id, user_ids,
    BookRecord, BookRow, BorrowData, BorrowRow, Database, DatabaseView,
};
use crate::server::error::RouteError;
use crate::server::rows::{lemma_filter_step, lemma_index_of_first};
use crate::server::utils::verify_user_is_librarian;

verus! {

/// For how many days a book is lent.
pub const LOAN_DAYS: u64 = 30;

/// How many seconds a day of a loan lasts.
pub const SECONDS_PER_DAY: i64 = 86400;

/// The language that a new book is filed under.
pub const DEFAULT_LANGUAGE: &'static str = "ro";

/// The books of a listing, as mathematics.
pub open spec fn books_view(books: Seq<Book>) -> Seq<BookView> {
    books.map_values(|b: Book| b@)
}

/// The authors of a listing, as mathematics.
pub open spec fn authors_view(authors: Seq<Author>) -> Seq<AuthorView> {
    authors.map_values(|a: Author| a@)
}

/// A loan as its borrower sees it.
pub open spec fn borrowed_book(row: BorrowRow) -> BorrowedBook {
    BorrowedBook {
        borrow_id: row.borrow_id,
        book_id: row.book_id,
        valid_until: row.data.valid_until,
        chapters_read: row.data.chapters_read,
    }
}

/// A loan as a librarian sees it.
pub open spec fn borrow_entry(row: BorrowRow) -> Borrow {
    Borrow {
        borrow_id: row.borrow_id,
        book_id: row.book_id,
        user_id: row.user_id,
        valid_until: row.data.valid_until,
    }
}

/// Whether the library owns more copies than `taken`.
fn more_than(count: i64, taken: usize) -> (more: bool)
    ensures
        more == (count > taken),
{
    count > 0 && count as u64 > taken as u64
}

impl DatabaseView {
    /// The row that a new loan of `book_id` to `user_id` gets.
    pub open spec fn new_borrow(self, user_id: i64, book_id: i64, valid_until: i64) -> BorrowRow {
        BorrowRow {
            borrow_id: next_id(borrow_ids(self.borrows)) as i64,
            book_id,
            user_id,
            data: BorrowData { valid_until, chapters_read: 0 },
        }
    }

    /// What a request of `user_id` to borrow `book_id` does to the tables and
    /// what it answers, where `valid_until` is the deadline a loan would get
    /// (`None`: no deadline could be worked out).
    ///
    /// A book that does not exist is an error. A book with no free copy is
    /// declined in silence. A book that the borrower already holds is
    /// reported as such. Only then is a loan recorded, with no chapter read.
    pub open spec fn borrow_until(self, user_id: i64, book_id: i64, valid_until: Option<i64>) -> (
        DatabaseView,
        Result<BorrowReply, RouteError>,
    ) {
        match self.book(book_id) {
            None => (self, Err(RouteError::Internal)),
            Some(book) => if !self.can_be_borrowed(book) {
                (self, Ok(BorrowReply { already_borrowed: false }))
            } else if self.borrows_of_pair(book_id, user_id).len() >= 1 {
                (self, Ok(BorrowReply { already_borrowed: true }))
            } else if valid_until is None || self.user(user_id) is None || next_id(
                borrow_ids(self.borrows),
            ) > i64::MAX {
                (self, Err(RouteError::Internal))
            } else {
                (
                    self.with_borrow(self.new_borrow(user_id, book_id, valid_until.unwrap())),
                    Ok(BorrowReply { already_borrowed: false }),
                )
            },
        }
    }
}

/// Lends a book with the given deadline; see [`DatabaseView::borrow_until`].
pub fn borrow_until(db: &mut Database, request: BorrowRequest, valid_until: Option<i64>) -> (reply:
    Result<BorrowReply, RouteError>)
    requires
        old(db)@.wf(),
    ensures
        final(db)@.wf(),
        final(db)@ == old(db)@.borrow_until(request.cookie.id, request.book_id, valid_until).0,
        reply == old(db)@.borrow_until(request.cookie.id, request.book_id, valid_until).1,
{
    let user_id = request.cookie.id;
    let book_id = request.book_id;
    let book_index = match db.find_book(book_id) {
        None => { return Err(RouteError::Internal); },
        Some(i) => i,
    };
    proof {
        lemma_index_of_first(book_ids(db@.books), book_id);
    }
    let taken = db.count_borrows_of_book(book_id);
    if !more_than(db.books[book_index].count, taken) {
        return Ok(BorrowReply { already_borrowed: false });
    }
    if db.count_borrows_of_pair(book_id, user_id) >= 1 {
        return Ok(BorrowReply { already_borrowed: true });
    }
    let deadline = match valid_until {
        None => { return Err(RouteError::Internal); },
        Some(deadline) => deadline,
    };
    if db.find_user(user_id).is_none() {
        return Err(RouteError::Internal);
    }
    let ids = db.borrow_id_list();
    let borrow_id = match fresh_id(&ids) {
        None => { return Err(RouteError::Internal); },
        Some(id) => id,
    };
    let row = BorrowRow {
        borrow_id,
        book_id,
        user_id,
        data: BorrowData { valid_until: deadline, chapters_read: 0 },
    };
    proof {
        lemma_next_id_is_fresh(borrow_ids(db@.borrows));
        lemma_index_of_first(book_ids(db@.books), book_id);
        lemma_index_of_first(user_ids(db@.users), user_id);
        db@.lemma_with_borrow_wf(row);
    }
    db.borrows.push(row);
    Ok(BorrowReply { already_borrowed: false })
}

/// Lends a book for [`LOAN_DAYS`] days from now. The deadline is read off the
/// clock, so all that is known of the outcome is that it is the one
/// [`borrow_until`] gives for some deadline.
pub fn borrow(db: &mut Database, request: BorrowRequest) -> (reply: Result<BorrowReply, RouteError>)
    requires
        old(db)@.wf(),
    ensures
        final(db)@.wf(),
        exists|valid_until: Option<i64>|
            {
                &&& final(db)@ == (#[trigger] old(db)@.borrow_until(
                    request.cookie.id,
                    request.book_id,
                    valid_until,
                )).0
                &&& reply == old(db)@.borrow_until(
                    request.cookie.id,
                    request.book_id,
                    valid_until,
                ).1
            },
{
    let valid_until = deadline_after_days(LOAN_DAYS);
    borrow_until(db, request, valid_until)
}

impl DatabaseView {
    /// One book as the catalogue lists it: with its author, and with whether
    /// a copy is free.
    pub open spec fn book_entry(self, book: BookRecord) -> BookView {
        BookView {
            book_id: book.book_id,
            title: book.title,
            author: self.author(book.author_id).unwrap(),
            publish_date: book.publish_date,
            publisher: book.publisher,
            count: book.count,
            synopsis: book.synopsis,
            can_be_borrowed: self.can_be_borrowed(book),
        }
    }

    /// The catalogue: every book, in table order.
    pub open spec fn book_listing(self) -> Seq<BookView> {
        Seq::new(self.books.len(), |i: int| self.book_entry(self.books[i]))
    }

    /// Every author by id and name alone, in table order; the other fields
    /// are left blank.
    pub open spec fn author_listing(self) -> Seq<AuthorView> {
        Seq::new(
            self.authors.len(),
            |i: int|
                AuthorView {
                    author_id: self.authors[i].author_id,
                    name: self.authors[i].name,
                    date_of_birth: 0,
                    date_of_death: None,
                    description: Seq::empty(),
                },
        )
    }

    /// The active loans of one borrower, in table order.
    pub open spec fn borrowed_by(self, user_id: i64) -> Seq<BorrowedBook> {
        self.borrows_of_user(user_id).map_values(|row: BorrowRow| borrowed_book(row))
    }

    /// Every active loan, in table order.
    pub open spec fn borrow_listing(self) -> Seq<Borrow> {
        self.borrows.map_values(|row: BorrowRow| borrow_entry(row))
    }

    /// What a request for the list of all loans answers.
    pub open spec fn all_borrows(self, requester: i64) -> Result<Seq<Borrow>, RouteError> {
        match self.require_librarian(requester) {
            Err(e) => Err(e),
            Ok(_) => Ok(self.borrow_listing()),
        }
    }
}

/// Lists the catalogue. Each book says whether it can be borrowed: whether
/// the library owns more copies of it than are out on loan.
pub fn books(db: &Database) -> (listing: Vec<Book>)
    requires
        db@.wf(),
    ensures
        books_view(listing@) == db@.book_listing(),
        forall|i: int|
            0 <= i < listing.len() ==> (#[trigger] listing[i]).can_be_borrowed == (listing[i].count
                > db@.borrows_of_book(listing[i].book_id).len()),
{
    let mut listing: Vec<Book> = Vec::new();
    let mut i: usize = 0;
    while i < db.books.len()
        invariant
            db@.wf(),
            i <= db.books.len(),
            listing@.len() == i,
            forall|k: int| 0 <= k < i ==> (#[trigger] listing@[k])@ == db@.book_entry(db@.books[k]),
        decreases db.books.len() - i,
    {
        let row = &db.books[i];
        proof {
            assert(db@.books[i as int] == row@);
            lemma_index_of_first(author_ids(db@.authors), row.author_id);
        }
        let author = match db.find_author(row.author_id) {
            Some(k) => &db.authors[k],
            None => vstd::pervasive::unreached(),
        };
        let taken = db.count_borrows_of_book(row.book_id);
        listing.push(
            Book {
                book_id: row.book_id,
                title: row.title.clone(),
                author: Author {
                    author_id: author.author_id,
                    name: author.name.clone(),
                    date_of_birth: author.date_of_birth,
                    date_of_death: author.date_of_death,
                    description: author.description.clone(),
                },
                publish_date: row.publish_date,
                publisher: row.publisher.clone(),
                count: row.count,
                synopsis: row.synopsis.clone(),
                can_be_borrowed: more_than(row.count, taken),
            },
        );
        i += 1;
    }
    assert(books_view(listing@) =~= db@.book_listing());
    assert forall|i: int| 0 <= i < listing.len() implies (#[trigger] listing[i]).can_be_borrowed
        == (listing[i].count > db@.borrows_of_book(listing[i].book_id).len()) by {
        assert(listing@[i]@ == db@.book_entry(db@.books[i]));
    }
    listing
}

/// Lists the authors by id and name, for a client to choose from.
pub fn authors(db: &Database) -> (listing: Vec<Author>)
    ensures
        authors_view(listing@) == db@.author_listing(),
{
    let mut listing: Vec<Author> = Vec::new();
    let mut i: usize = 0;
    while i < db.authors.len()
        invariant
            i <= db.authors.len(),
            listing@.len() == i,
            forall|k: int| 0 <= k < i ==> (#[trigger] listing@[k])@ == db@.author_listing()[k],
        decreases db.authors.len() - i,
    {
        let row = &db.authors[i];
        listing.push(
            Author {
                author_id: row.author_id,
                name: row.name.clone(),
                date_of_birth: 0,
                date_of_death: None,
                description: String::new(),
            },
        );
        i += 1;
    }
    assert(authors_view(listing@) =~= db@.author_listing());
    listing
}

/// Lists the active loans of one borrower, with deadline and progress.
pub fn borrowed_by(db: &Database, user_id: i64) -> (listing: Vec<BorrowedBook>)
    ensures
        listing@ == db@.borrowed_by(user_id),
{
    let ghost pred = |b: BorrowRow| b.user_id == user_id;
    let ghost entry = |row: BorrowRow| borrowed_book(row);
    let mut listing: Vec<BorrowedBook> = Vec::new();
    let mut i: usize = 0;
    while i < db.borrows.len()
        invariant
            i <= db.borrows.len(),
            pred == (|b: BorrowRow| b.user_id == user_id),
            entry == (|row: BorrowRow| borrowed_book(row)),
            listing@ == db.borrows@.take(i as int).filter(pred).map_values(entry),
        decreases db.borrows.len() - i,
    {
        let row = db.borrows[i];
        proof {
            lemma_filter_step(db.borrows@, pred, i as int);
            let kept = db.borrows@.take(i as int).filter(pred);
            assert(kept.push(row).map_values(entry) =~= kept.map_values(entry).push(entry(row)));
        }
        if row.user_id == user_id {
            listing.push(
                BorrowedBook {
                    borrow_id: row.borrow_id,
                    book_id: row.book_id,
                    valid_until: row.data.valid_until,
                    chapters_read: row.data.chapters_read,
                },
            );
        }
        i += 1;
    }
    proof {
        assert(db.borrows@.take(db.borrows.len() as int) =~= db.borrows@);
    }
    listing
}

/// Lists every active loan. Only a librarian may ask.
pub fn borrows(db: &Database, request: BorrowsRequest) -> (reply: Result<Vec<Borrow>, RouteError>)
    ensures
        match reply {
            Ok(listing) => db@.all_borrows(request.cookie.id) == Ok::<Seq<Borrow>, RouteError>(
                listing@,
            ),
            Err(e) => db@.all_borrows(request.cookie.id) == Err::<Seq<Borrow>, RouteError>(e),
        },
{
    match verify_user_is_librarian(db, &request.cookie) {
        Err(e) => { return Err(e); },
        Ok(_) => {},
    }
    let mut listing: Vec<Borrow> = Vec::new();
    let mut i: usize = 0;
    while i < db.borrows.len()
        invariant
            i <= db.borrows.len(),
            listing@.len() == i,
            forall|k: int| 0 <= k < i ==> #[trigger] listing@[k] == borrow_entry(db.borrows@[k]),
        decreases db.borrows.len() - i,
    {
        let row = db.borrows[i];
        listing.push(
            Borrow {
                borrow_id: row.borrow_id,
                book_id: row.book_id,
                user_id: row.user_id,
                valid_until: row.data.valid_until,
            },
        );
        i += 1;
    }
    assert(listing@ =~= db@.borrow_listing());
    Ok(listing)
}

impl DatabaseView {
    /// The row that a new book gets.
    pub open spec fn new_book(self, request: ChangeBookDetailsRequest) -> BookRecord {
        BookRecord {
            book_id: next_id(book_ids(self.books)) as i64,
            title: request.title@,
            author_id: request.author_id,
            publish_date: request.publish_date,
            publisher: request.publisher@,
            count: request.count,
            synopsis: request.synopsis@,
            language: DEFAULT_LANGUAGE@,
        }
    }

    /// What a request to add or rewrite a book does to the tables and what it
    /// answers.
    ///
    /// Without a `book_id` the book is added under the next id and in the
    /// default language. With one, the book of that id takes the request's
    /// fields and keeps its id and language; where there is no such book,
    /// nothing changes. An author that does not exist cannot be named.
    pub open spec fn change_book_details(self, request: ChangeBookDetailsRequest) -> (
        DatabaseView,
        Result<(), RouteError>,
    ) {
        match self.require_librarian(request.cookie.id) {
            Err(e) => (self, Err(e)),
            Ok(_) => match request.book_id {
                Some(book_id) => match book_ids(self.books).index_of_first(book_id) {
                    None => (self, Ok(())),
                    Some(i) => if self.author(request.author_id) is None {
                        (self, Err(RouteError::Internal))
                    } else {
                        (
                            DatabaseView {
                                books: self.books.update(
                                    i,
                                    BookRecord {
                                        book_id: self.books[i].book_id,
                                        language: self.books[i].language,
                                        ..self.new_book(request)
                                    },
                                ),
                                ..self
                            },
                            Ok(()),
                        )
                    },
                },
                None => if self.author(request.author_id) is None || next_id(
                    book_ids(self.books),
                ) > i64::MAX {
                    (self, Err(RouteError::Internal))
                } else {
                    (self.with_book(self.new_book(request)), Ok(()))
                },
            },
        }
    }

    /// The row that a new author gets.
    pub open spec fn new_author(self, request: ChangeAuthorDetailsRequest) -> AuthorView {
        AuthorView {
            author_id: next_id(author_ids(self.authors)) as i64,
            name: request.name@,
            date_of_birth: request.date_of_birth,
            date_of_death: request.date_of_death,
            description: request.description@,
        }
    }

    /// What a request to add an author does to the tables and what it
    /// answers. A request that names an existing author is refused: authors
    /// can be added, not rewritten.
    pub open spec fn change_author_details(self, request: ChangeAuthorDetailsRequest) -> (
        DatabaseView,
        Result<(), RouteError>,
    ) {
        match self.require_librarian(request.cookie.id) {
            Err(e) => (self, Err(e)),
            Ok(_) => if request.author_id is Some {
                (self, Err(RouteError::BadRequest))
            } else if next_id(author_ids(self.authors)) > i64::MAX {
                (self, Err(RouteError::Internal))
            } else {
                (self.with_author(self.new_author(request)), Ok(()))
            },
        }
    }

    /// The tables without the book `book_id`.
    pub open spec fn without_book(self, book_id: i64) -> DatabaseView {
        match book_ids(self.books).index_of_first(book_id) {
            Some(i) => DatabaseView { books: self.books.remove(i), ..self },
            None => self,
        }
    }

    /// What a request to delete a book does to the tables and what it
    /// answers: a book of which a copy is out on loan stays.
    pub open spec fn delete_book(self, requester: i64, book_id: i64) -> (
        DatabaseView,
        Result<(), RouteError>,
    ) {
        match self.require_librarian(requester) {
            Err(e) => (self, Err(e)),
            Ok(_) => if self.borrows_of_book(book_id).len() > 0 {
                (self, Err(RouteError::Forbidden))
            } else {
                (self.without_book(book_id), Ok(()))
            },
        }
    }

    /// The tables with the record of the loan `borrow_id` replaced.
    pub open spec fn with_borrow_data(self, borrow_id: i64, data: BorrowData) -> DatabaseView {
        match borrow_ids(self.borrows).index_of_first(borrow_id) {
            Some(i) => DatabaseView {
                borrows: self.borrows.update(i, BorrowRow { data, ..self.borrows[i] }),
                ..self
            },
            None => self,
        }
    }

    /// What a request to lengthen a loan does to the tables and what it
    /// answers: the deadline moves by `days` days of 86400 seconds. A
    /// deadline that no `i64` can hold is an error. Where there is no such
    /// loan, nothing changes.
    pub open spec fn lengthen_borrow_by(self, requester: i64, borrow_id: i64, days: i64) -> (
        DatabaseView,
        Result<(), RouteError>,
    ) {
        match self.require_librarian(requester) {
            Err(e) => (self, Err(e)),
            Ok(_) => match self.borrow(borrow_id) {
                None => (self, Ok(())),
                Some(row) => {
                    let valid_until = row.data.valid_until + days * SECONDS_PER_DAY;
                    if i64::MIN <= valid_until <= i64::MAX {
                        (
                            self.with_borrow_data(
                                borrow_id,
                                BorrowData { valid_until: valid_until as i64, ..row.data },
                            ),
                            Ok(()),
                        )
                    } else {
                        (self, Err(RouteError::Internal))
                    }
                },
            },
        }
    }

    /// What a request to end a loan at the moment `now` does to the tables
    /// and what it answers: the deadline becomes `now`, and the loan stays.
    pub open spec fn end_borrow_at(self, requester: i64, borrow_id: i64, now: i64) -> (
        DatabaseView,
        Result<(), RouteError>,
    ) {
        match self.require_librarian(requester) {
            Err(e) => (self, Err(e)),
            Ok(_) => match self.borrow(borrow_id) {
                None => (self, Ok(())),
                Some(row) => (
                    self.with_borrow_data(borrow_id, BorrowData { valid_until: now, ..row.data }),
                    Ok(()),
                ),
            },
        }
    }

    /// What a request to record progress does to the tables and what it
    /// answers: a negative number of chapters is refused.
    pub open spec fn update_chapters_read(self, borrow_id: i64, value: i64) -> (
        DatabaseView,
        Result<(), RouteError>,
    ) {
        if value < 0 {
            (self, Err(RouteError::BadRequest))
        } else {
            match self.borrow(borrow_id) {
                None => (self, Ok(())),
                Some(row) => (
                    self.with_borrow_data(
                        borrow_id,
                        BorrowData { chapters_read: value, ..row.data },
                    ),
                    Ok(()),
                ),
            }
        }
    }

    /// The tables without the loan `borrow_id`.
    pub open spec fn return_book(self, borrow_id: i64) -> DatabaseView {
        match borrow_ids(self.borrows).index_of_first(borrow_id) {
            Some(i) => DatabaseView { borrows: self.borrows.remove(i), ..self },
            None => self,
        }
    }
}

/// Adds a book or rewrites one. Only a librarian may ask.
pub fn change_book_details(db: &mut Database, request: ChangeBookDetailsRequest) -> (reply: Result<
    (),
    RouteError,
>)
    requires
        old(db)@.wf(),
    ensures
        final(db)@.wf(),
        final(db)@ == old(db)@.change_book_details(request).0,
        reply == old(db)@.change_book_details(request).1,
{
    match verify_user_is_librarian(db, &request.cookie) {
        Err(e) => { return Err(e); },
        Ok(_) => {},
    }
    proof {
        lemma_index_of_first(author_ids(db@.authors), request.author_id);
    }
    match request.book_id {
        Some(book_id) => {
            let i = match db.find_book(book_id) {
                None => { return Ok(()); },
                Some(i) => i,
            };
            if db.find_author(request.author_id).is_none() {
                return Err(RouteError::Internal);
            }
            let row = BookRow {
                book_id: db.books[i].book_id,
                title: request.title,
                author_id: request.author_id,
                publish_date: request.publish_date,
                publisher: request.publisher,
                count: request.count,
                synopsis: request.synopsis,
                language: db.books[i].language.clone(),
            };
            proof {
                db@.lemma_update_book_wf(i as int, row@);
                assert(db.books@.update(i as int, row).map_values(|r: BookRow| r@)
                    =~= db@.books.update(i as int, row@));
            }
            db.books.set(i, row);
            Ok(())
        },
        None => {
            if db.find_author(request.author_id).is_none() {
                return Err(RouteError::Internal);
            }
            let ids = db.book_id_list();
            let book_id = match fresh_id(&ids) {
                None => { return Err(RouteError::Internal); },
                Some(id) => id,
            };
            let row = BookRow {
                book_id,
                title: request.title,
                author_id: request.author_id,
                publish_date: request.publish_date,
                publisher: request.publisher,
                count: request.count,
                synopsis: request.synopsis,
                language: String::from_str(DEFAULT_LANGUAGE),
            };
            proof {
                lemma_next_id_is_fresh(book_ids(db@.books));
                db@.lemma_with_book_wf(row@);
                assert(db.books@.push(row).map_values(|r: BookRow| r@) =~= db@.books.push(row@));
            }
            db.books.push(row);
            Ok(())
        },
    }
}

/// Adds an author. Only a librarian may ask.
pub fn change_author_details(db: &mut Database, request: ChangeAuthorDetailsRequest) -> (reply:
    Result<(), RouteError>)
    requires
        old(db)@.wf(),
    ensures
        final(db)@.wf(),
        final(db)@ == old(db)@.change_author_details(request).0,
        reply == old(db)@.change_author_details(request).1,
{
    match verify_user_is_librarian(db, &request.cookie) {
        Err(e) => { return Err(e); },
        Ok(_) => {},
    }
    if request.author_id.is_some() {
        return Err(RouteError::new_bad_request());
    }
    let ids = db.author_id_list();
    let author_id = match fresh_id(&ids) {
        None => { return Err(RouteError::Internal); },
        Some(id) => id,
    };
    let row = Author {
        author_id,
        name: request.name,
        date_of_birth: request.date_of_birth,
        date_of_death: request.date_of_death,
        description: request.description,
    };
    proof {
        lemma_next_id_is_fresh(author_ids(db@.authors));
        db@.lemma_with_author_wf(row@);
        assert(db.authors@.push(row).map_values(|a: Author| a@) =~= db@.authors.push(row@));
    }
    db.authors.push(row);
    Ok(())
}

/// Deletes a book. Only a librarian may ask, and not while a copy is out on
/// loan.
pub fn delete_book(db: &mut Database, book_id: i64, cookie: Cookie) -> (reply: Result<
    (),
    RouteError,
>)
    requires
        old(db)@.wf(),
    ensures
        final(db)@.wf(),
        final(db)@ == old(db)@.delete_book(cookie.id, book_id).0,
        reply == old(db)@.delete_book(cookie.id, book_id).1,
{
    match verify_user_is_librarian(db, &cookie) {
        Err(e) => { return Err(e); },
        Ok(_) => {},
    }
    if db.count_borrows_of_book(book_id) > 0 {
        return Err(RouteError::new_forbidden());
    }
    match db.find_book(book_id) {
        None => {},
        Some(i) => {
            proof {
                lemma_index_of_first(book_ids(db@.books), book_id);
                db@.lemma_remove_book_wf(i as int);
                assert(db.books@.remove(i as int).map_values(|r: BookRow| r@)
                    =~= db@.books.remove(i as int));
            }
            db.books.remove(i);
        },
    }
    Ok(())
}

/// Moves the deadline of a loan by a number of days. Only a librarian may
/// ask.
pub fn lengthen_borrow_by(db: &mut Database, borrow_id: i64, days: i64, cookie: Cookie) -> (reply:
    Result<(), RouteError>)
    requires
        old(db)@.wf(),
    ensures
        final(db)@.wf(),
        final(db)@ == old(db)@.lengthen_borrow_by(cookie.id, borrow_id, days).0,
        reply == old(db)@.lengthen_borrow_by(cookie.id, borrow_id, days).1,
{
    match verify_user_is_librarian(db, &cookie) {
        Err(e) => { return Err(e); },
        Ok(_) => {},
    }
    let i = match db.find_borrow(borrow_id) {
        None => { return Ok(()); },
        Some(i) => i,
    };
    let row = db.borrows[i];
    let valid_until: i128 = row.data.valid_until as i128 + days as i128 * SECONDS_PER_DAY as i128;
    if valid_until < i64::MIN as i128 || valid_until > i64::MAX as i128 {
        return Err(RouteError::Internal);
    }
    let data = BorrowData {
        valid_until: valid_until as i64,
        chapters_read: row.data.chapters_read,
    };
    proof {
        db@.lemma_update_borrow_wf(i as int, data);
    }
    db.borrows.set(i, BorrowRow { data, ..row });
    Ok(())
}

/// Ends a loan at the moment `now`: its deadline becomes `now`, so that it
/// is due at once. The loan stays until the book is returned. Only a
/// librarian may ask.
pub fn end_borrow_at(db: &mut Database, borrow_id: i64, cookie: Cookie, now: i64) -> (reply: Result<
    (),
    RouteError,
>)
    requires
        old(db)@.wf(),
    ensures
        final(db)@.wf(),
        final(db)@ == old(db)@.end_borrow_at(cookie.id, borrow_id, now).0,
        reply == old(db)@.end_borrow_at(cookie.id, borrow_id, now).1,
{
    match verify_user_is_librarian(db, &cookie) {
        Err(e) => { return Err(e); },
        Ok(_) => {},
    }
    let i = match db.find_borrow(borrow_id) {
        None => { return Ok(()); },
        Some(i) => i,
    };
    let row = db.borrows[i];
    let data = BorrowData { valid_until: now, chapters_read: row.data.chapters_read };
    proof {
        db@.lemma_update_borrow_wf(i as int, data);
    }
    db.borrows.set(i, BorrowRow { data, ..row });
    Ok(())
}

/// Ends a loan now. The moment is read off the clock, so all that is known
/// of the outcome is that it is the one [`end_borrow_at`] gives for some
/// moment.
pub fn end_borrow(db: &mut Database, borrow_id: i64, cookie: Cookie) -> (reply: Result<
    (),
    RouteError,
>)
    requires
        old(db)@.wf(),
    ensures
        final(db)@.wf(),
        exists|now: i64|
            {
                &&& final(db)@ == (#[trigger] old(db)@.end_borrow_at(cookie.id, borrow_id, now)).0
                &&& reply == old(db)@.end_borrow_at(cookie.id, borrow_id, now).1
            },
{
    let now = now_timestamp();
    end_borrow_at(db, borrow_id, cookie, now)
}

/// Records how many chapters the borrower has read.
pub fn update_chapters_read(db: &mut Database, borrow_id: i64, value: i64) -> (reply: Result<
    (),
    RouteError,
>)
    requires
        old(db)@.wf(),
    ensures
        final(db)@.wf(),
        final(db)@ == old(db)@.update_chapters_read(borrow_id, value).0,
        reply == old(db)@.update_chapters_read(borrow_id, value).1,
{
    if value < 0 {
        return Err(RouteError::new_bad_request());
    }
    let i = match db.find_borrow(borrow_id) {
        None => { return Ok(()); },
        Some(i) => i,
    };
    let row = db.borrows[i];
    let data = BorrowData { valid_until: row.data.valid_until, chapters_read: value };
    proof {
        db@.lemma_update_borrow_wf(i as int, data);
    }
    db.borrows.set(i, BorrowRow { data, ..row });
    Ok(())
}

/// Returns a book: the loan and its record are gone. Where there is no such
/// loan, nothing changes.
pub fn return_book(db: &mut Database, borrow_id: i64)
    requires
        old(db)@.wf(),
    ensures
        final(db)@.wf(),
        final(db)@ == old(db)@.return_book(borrow_id),
{
    match db.find_borrow(borrow_id) {
        None => {},
        Some(i) => {
            proof {
                db@.lemma_remove_borrow_wf(i as int);
            }
            db.borrows.remove(i);
        },
    }
}

} // verus!

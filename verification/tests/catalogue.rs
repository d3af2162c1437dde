use biblioteca::schema::books::{
    Author, ChangeAuthorDetailsRequest, ChangeBookDetailsRequest,
};
use biblioteca::schema::session::Cookie;
use biblioteca::schema::{LIBRARIAN, NORMAL_USER};
use biblioteca::server::books::{
    authors, books, change_author_details, change_book_details, delete_book, DEFAULT_LANGUAGE,
};
use biblioteca::server::database::{BookRow, BorrowData, BorrowRow, Database, UserRow};
use biblioteca::server::error::RouteError;

fn cookie(id: i64) -> Cookie {
    Cookie { id, password: String::from("secret") }
}

fn user(id: i64, name: &str, kind: i64) -> UserRow {
    UserRow {
        user_id: id,
        name: String::from(name),
        email: format!("{}@example.org", name),
        password: String::from("not a hash"),
        kind,
    }
}

fn author(id: i64, name: &str) -> Author {
    Author {
        author_id: id,
        name: String::from(name),
        date_of_birth: -3786825600,
        date_of_death: Some(-2540246400),
        description: String::from("poet"),
    }
}

fn book(id: i64, title: &str, author_id: i64, count: i64) -> BookRow {
    BookRow {
        book_id: id,
        title: String::from(title),
        author_id,
        publish_date: 100,
        publisher: String::from("Junimea"),
        count,
        synopsis: String::from("versuri"),
        language: String::from("ro"),
    }
}

fn loan(borrow_id: i64, book_id: i64, user_id: i64) -> BorrowRow {
    BorrowRow {
        borrow_id,
        book_id,
        user_id,
        data: BorrowData { valid_until: 1000, chapters_read: 0 },
    }
}

/// A librarian (1), two readers (2, 3), two authors, three books.
fn library() -> Database {
    let mut db = Database::new();
    db.users.push(user(1, "ana", LIBRARIAN));
    db.users.push(user(2, "bogdan", NORMAL_USER));
    db.users.push(user(3, "carmen", NORMAL_USER));
    db.authors.push(author(1, "Mihai Eminescu"));
    db.authors.push(author(2, "Ion Creanga"));
    db.books.push(book(1, "Poesii", 1, 1));
    db.books.push(book(2, "Amintiri din copilarie", 2, 2));
    db.books.push(book(3, "Luceafarul", 1, 0));
    assert!(db.is_well_formed());
    db
}

fn new_book_request(requester: i64) -> ChangeBookDetailsRequest {
    ChangeBookDetailsRequest {
        book_id: None,
        title: String::from("Povesti"),
        author_id: 2,
        publish_date: 777,
        publisher: String::from("Minerva"),
        count: 4,
        synopsis: String::from("basme"),
        cookie: cookie(requester),
    }
}

#[test]
fn books_lists_every_book_with_its_author() {
    let db = library();
    let listing = books(&db);
    assert_eq!(listing.len(), 3);
    assert_eq!(listing[0].book_id, 1);
    assert_eq!(listing[0].title, "Poesii");
    assert_eq!(listing[0].author, author(1, "Mihai Eminescu"));
    assert_eq!(listing[0].publish_date, 100);
    assert_eq!(listing[0].publisher, "Junimea");
    assert_eq!(listing[0].count, 1);
    assert_eq!(listing[0].synopsis, "versuri");
    assert_eq!(listing[1].author.name, "Ion Creanga");
    assert_eq!(listing[2].author.author_id, 1);
}

#[test]
fn books_tell_whether_a_copy_is_free() {
    let mut db = library();
    let listing = books(&db);
    assert!(listing[0].can_be_borrowed);
    assert!(listing[1].can_be_borrowed);
    assert!(!listing[2].can_be_borrowed);
    db.borrows.push(loan(1, 1, 2));
    db.borrows.push(loan(2, 2, 2));
    let listing = books(&db);
    assert!(!listing[0].can_be_borrowed);
    assert!(listing[1].can_be_borrowed);
    db.borrows.push(loan(3, 2, 3));
    let listing = books(&db);
    assert!(!listing[1].can_be_borrowed);
    for entry in listing.iter() {
        let active = db.borrows.iter().filter(|b| b.book_id == entry.book_id).count() as i64;
        assert_eq!(entry.can_be_borrowed, entry.count > active);
    }
}

#[test]
fn books_with_a_negative_count_cannot_be_borrowed() {
    let mut db = library();
    db.books[0].count = -5;
    assert!(!books(&db)[0].can_be_borrowed);
}

#[test]
fn books_of_an_empty_library_are_none() {
    assert!(books(&Database::new()).is_empty());
}

#[test]
fn authors_lists_id_and_name_only() {
    let db = library();
    let listing = authors(&db);
    assert_eq!(listing.len(), 2);
    assert_eq!(
        listing[0],
        Author {
            author_id: 1,
            name: String::from("Mihai Eminescu"),
            date_of_birth: 0,
            date_of_death: None,
            description: String::new(),
        }
    );
    assert_eq!(listing[1].author_id, 2);
    assert_eq!(listing[1].name, "Ion Creanga");
}

#[test]
fn change_book_details_without_id_adds_one_book() {
    let mut db = library();
    let before = db.clone();
    assert_eq!(change_book_details(&mut db, new_book_request(1)), Ok(()));
    assert_eq!(db.books.len(), 4);
    assert_eq!(&db.books[..3], &before.books[..]);
    assert_eq!(
        db.books[3],
        BookRow {
            book_id: 4,
            title: String::from("Povesti"),
            author_id: 2,
            publish_date: 777,
            publisher: String::from("Minerva"),
            count: 4,
            synopsis: String::from("basme"),
            language: String::from("ro"),
        }
    );
    assert_eq!(DEFAULT_LANGUAGE, "ro");
    assert_eq!(db.users, before.users);
    assert_eq!(db.authors, before.authors);
    assert_eq!(db.borrows, before.borrows);
    assert!(db.is_well_formed());
}

#[test]
fn added_book_shows_in_the_catalogue() {
    let mut db = library();
    change_book_details(&mut db, new_book_request(1)).unwrap();
    let listing = books(&db);
    let last = listing.last().unwrap();
    assert_eq!(last.book_id, 4);
    assert_eq!(last.title, "Povesti");
    assert_eq!(last.author, author(2, "Ion Creanga"));
    assert_eq!(last.publish_date, 777);
    assert_eq!(last.publisher, "Minerva");
    assert_eq!(last.count, 4);
    assert_eq!(last.synopsis, "basme");
    assert!(last.can_be_borrowed);
}

#[test]
fn first_book_of_a_library_gets_id_one() {
    let mut db = Database::new();
    db.users.push(user(1, "ana", LIBRARIAN));
    db.authors.push(author(2, "Ion Creanga"));
    change_book_details(&mut db, new_book_request(1)).unwrap();
    assert_eq!(db.books[0].book_id, 1);
}

#[test]
fn change_book_details_with_id_rewrites_the_book() {
    let mut db = library();
    db.books[1].language = String::from("fr");
    let mut request = new_book_request(1);
    request.book_id = Some(2);
    request.author_id = 1;
    assert_eq!(change_book_details(&mut db, request), Ok(()));
    assert_eq!(db.books.len(), 3);
    assert_eq!(
        db.books[1],
        BookRow {
            book_id: 2,
            title: String::from("Povesti"),
            author_id: 1,
            publish_date: 777,
            publisher: String::from("Minerva"),
            count: 4,
            synopsis: String::from("basme"),
            language: String::from("fr"),
        }
    );
    assert_eq!(db.books[0], book(1, "Poesii", 1, 1));
    assert_eq!(db.books[2], book(3, "Luceafarul", 1, 0));
}

#[test]
fn change_book_details_last_writer_wins() {
    let mut db = library();
    let mut first = new_book_request(1);
    first.book_id = Some(1);
    let mut second = new_book_request(1);
    second.book_id = Some(1);
    second.title = String::from("Alt titlu");
    change_book_details(&mut db, first).unwrap();
    change_book_details(&mut db, second).unwrap();
    assert_eq!(db.books[0].title, "Alt titlu");
}

#[test]
fn change_book_details_on_no_book_changes_nothing() {
    let mut db = library();
    let before = db.clone();
    let mut request = new_book_request(1);
    request.book_id = Some(40);
    request.author_id = 99;
    assert_eq!(change_book_details(&mut db, request), Ok(()));
    assert_eq!(db, before);
}

#[test]
fn change_book_details_needs_an_author_that_exists() {
    let mut db = library();
    let before = db.clone();
    let mut request = new_book_request(1);
    request.author_id = 99;
    assert_eq!(change_book_details(&mut db, request.clone()), Err(RouteError::Internal));
    request.book_id = Some(1);
    assert_eq!(change_book_details(&mut db, request), Err(RouteError::Internal));
    assert_eq!(db, before);
}

#[test]
fn change_book_details_is_for_librarians() {
    let mut db = library();
    let before = db.clone();
    assert_eq!(change_book_details(&mut db, new_book_request(2)), Err(RouteError::Forbidden));
    assert_eq!(change_book_details(&mut db, new_book_request(9)), Err(RouteError::Internal));
    assert_eq!(db, before);
}

fn new_author_request(requester: i64) -> ChangeAuthorDetailsRequest {
    ChangeAuthorDetailsRequest {
        author_id: None,
        name: String::from("Lucian Blaga"),
        date_of_birth: -2366755200,
        date_of_death: Some(-273024000),
        description: String::from("poet si filosof"),
        cookie: cookie(requester),
    }
}

#[test]
fn change_author_details_adds_an_author() {
    let mut db = library();
    assert_eq!(change_author_details(&mut db, new_author_request(1)), Ok(()));
    assert_eq!(db.authors.len(), 3);
    assert_eq!(
        db.authors[2],
        Author {
            author_id: 3,
            name: String::from("Lucian Blaga"),
            date_of_birth: -2366755200,
            date_of_death: Some(-273024000),
            description: String::from("poet si filosof"),
        }
    );
    assert!(db.is_well_formed());
}

#[test]
fn change_author_details_cannot_rewrite() {
    let mut db = library();
    let before = db.clone();
    let mut request = new_author_request(1);
    request.author_id = Some(1);
    assert_eq!(change_author_details(&mut db, request), Err(RouteError::BadRequest));
    assert_eq!(db, before);
}

#[test]
fn change_author_details_is_for_librarians() {
    let mut db = library();
    let before = db.clone();
    let mut request = new_author_request(3);
    assert_eq!(change_author_details(&mut db, request.clone()), Err(RouteError::Forbidden));
    request.author_id = Some(1);
    assert_eq!(change_author_details(&mut db, request), Err(RouteError::Forbidden));
    assert_eq!(db, before);
}

#[test]
fn delete_book_removes_the_book() {
    let mut db = library();
    assert_eq!(delete_book(&mut db, 2, cookie(1)), Ok(()));
    assert_eq!(db.books.len(), 2);
    assert_eq!((db.books[0].book_id, db.books[1].book_id), (1, 3));
    assert!(db.is_well_formed());
}

#[test]
fn delete_book_on_loan_is_forbidden() {
    let mut db = library();
    db.borrows.push(loan(1, 2, 3));
    let before = db.clone();
    assert_eq!(delete_book(&mut db, 2, cookie(1)), Err(RouteError::Forbidden));
    assert_eq!(db, before);
    assert_eq!(RouteError::Forbidden.status_code(), 403);
}

#[test]
fn delete_book_on_no_book_changes_nothing() {
    let mut db = library();
    let before = db.clone();
    assert_eq!(delete_book(&mut db, 17, cookie(1)), Ok(()));
    assert_eq!(db, before);
}

#[test]
fn delete_book_is_for_librarians() {
    let mut db = library();
    let before = db.clone();
    assert_eq!(delete_book(&mut db, 2, cookie(2)), Err(RouteError::Forbidden));
    assert_eq!(delete_book(&mut db, 2, cookie(8)), Err(RouteError::Internal));
    assert_eq!(db, before);
}

#[test]
fn well_formed_books_have_their_author() {
    let mut db = library();
    db.books[0].author_id = 9;
    assert!(!db.is_well_formed());
    db.books[0].author_id = 1;
    db.authors[1].author_id = 1;
    assert!(!db.is_well_formed());
}

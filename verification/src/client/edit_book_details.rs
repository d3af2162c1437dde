//! The form that adds or rewrites a book.

use vstd::prelude::*;

use crate::client::text::{integer_i64, parse_i64};
use crate::client::time::{date_from_entries, date_of_entries, DateEntryError, DateFields};
use crate::schema::books::{Author, Book, ChangeBookDetailsRequest};
use crate::schema::session::Cookie;

verus! {

/// What the form is headed with while the book has no title yet.
pub const DEFAULT_TITLE: &'static str = "Carte nouă";

/// The publishing date that stands for "none yet".
pub const NO_PUBLISH_DATE: i64 = i64::MAX;

/// The endpoint that takes the form.
pub const CHANGE_BOOK_DETAILS: &'static str = "/change-book-details";

/// What the form starts out with.
#[derive(Debug, Clone, PartialEq, Eq)]
pub struct BookForm {
    pub book_id: Option<i64>,
    pub author_id: Option<i64>,
    pub title: String,
    pub author_name: Option<String>,
    pub count: i64,
    pub synopsis: String,
    pub publisher: String,
    pub publish_date: i64,
}

/// What the form starts out with: the fields of the book to rewrite, or
/// blanks for a new book.
pub fn initial_form(book: Option<&Book>) -> (form: BookForm)
    ensures
        match book {
            Some(book) => {
                &&& form.book_id == Some(book.book_id)
                &&& form.author_id == Some(book.author.author_id)
                &&& form.title@ == book.title@
                &&& form.author_name matches Some(name) && name@ == book.author.name@
                &&& form.count == book.count
                &&& form.synopsis@ == book.synopsis@
                &&& form.publisher@ == book.publisher@
                &&& form.publish_date == book.publish_date
            },
            None => {
                &&& form.book_id is None
                &&& form.author_id is None
                &&& form.title@ == DEFAULT_TITLE@
                &&& form.author_name is None
                &&& form.count == 0
                &&& form.synopsis@.len() == 0
                &&& form.publisher@.len() == 0
                &&& form.publish_date == NO_PUBLISH_DATE
            },
        },
{
    match book {
        Some(book) => BookForm {
            book_id: Some(book.book_id),
            author_id: Some(book.author.author_id),
            title: book.title.clone(),
            author_name: Some(book.author.name.clone()),
            count: book.count,
            synopsis: book.synopsis.clone(),
            publisher: book.publisher.clone(),
            publish_date: book.publish_date,
        },
        None => BookForm {
            book_id: None,
            author_id: None,
            title: String::from_str(DEFAULT_TITLE),
            author_name: None,
            count: 0,
            synopsis: String::new(),
            publisher: String::new(),
            publish_date: NO_PUBLISH_DATE,
        },
    }
}

/// The ids of the listed authors, in order.
pub open spec fn listed_author_ids(authors: Seq<Author>) -> Seq<i64> {
    authors.map_values(|a: Author| a.author_id)
}

/// Where the author `author_id` first stands among `authors`.
pub open spec fn author_position(authors: Seq<Author>, author_id: Option<i64>) -> Option<int> {
    match author_id {
        Some(id) => listed_author_ids(authors).index_of_first(id),
        None => None,
    }
}

/// Which entry of the fetched list of authors to select: the book's own
/// author, where the book has one and the list holds it.
pub fn our_author_index(authors: &Vec<Author>, author_id: Option<i64>) -> (index: Option<usize>)
    ensures
        match index {
            Some(i) => i < authors.len() && author_position(authors@, author_id) == Some(
                i as int,
            ),
            None => author_position(authors@, author_id) is None,
        },
{
    let id = match author_id {
        Some(id) => id,
        None => { return None; },
    };
    let ghost ids = listed_author_ids(authors@);
    let mut i: usize = 0;
    while i < authors.len()
        invariant
            i <= authors.len(),
            author_id == Some(id),
            ids == listed_author_ids(authors@),
            forall|j: int| 0 <= j < i ==> ids[j] != id,
        decreases authors.len() - i,
    {
        if authors[i].author_id == id {
            proof {
                crate::server::rows::lemma_first_index(ids, id, i as int);
            }
            return Some(i);
        }
        i += 1;
    }
    proof {
        crate::server::rows::lemma_no_index(ids, id);
    }
    None
}

/// Why the form cannot be sent.
#[derive(Debug, Clone, Copy, PartialEq, Eq, Structural)]
pub enum BookFormError {
    /// No author is chosen.
    NoAuthor,
    /// The year is no number.
    Year,
    /// The day is no number.
    Day,
    /// Year, month and day spell no date of the calendar.
    InvalidDate,
    /// The number of copies is no whole number.
    Count,
}

impl BookFormError {
    /// What the client says of this error. For a date that the calendar
    /// refuses, the calendar's reason follows the text.
    pub fn message(self) -> (message: &'static str)
        ensures
            message@ == match self {
                BookFormError::NoAuthor => "Trebuie să alegi un autor"@,
                BookFormError::Year => "Anul trebuie să fie un număr"@,
                BookFormError::Day => "Ziua trebuie să fie un număr"@,
                BookFormError::InvalidDate => "Detaliile introduse nu au format o dată validă: "@,
                BookFormError::Count => "Numărul de cărți trebuie să fie un număr întreg"@,
            },
    {
        match self {
            BookFormError::NoAuthor => "Trebuie să alegi un autor",
            BookFormError::Year => "Anul trebuie să fie un număr",
            BookFormError::Day => "Ziua trebuie să fie un număr",
            BookFormError::InvalidDate => "Detaliile introduse nu au format o dată validă: ",
            BookFormError::Count => "Numărul de cărți trebuie să fie un număr întreg",
        }
    }
}

/// The first half of reading the form: an author has to be chosen, then the
/// year and the day have to be numbers, in this order.
pub open spec fn publish_date_of(
    author_id: Option<i64>,
    year: Seq<char>,
    month_selected: u32,
    day: Seq<char>,
) -> Result<DateFields, BookFormError> {
    if author_id is None {
        Err(BookFormError::NoAuthor)
    } else {
        match date_of_entries(year, month_selected, day, false) {
            Ok(date) => Ok(date.unwrap()),
            Err(DateEntryError::Year) => Err(BookFormError::Year),
            Err(DateEntryError::Day) => Err(BookFormError::Day),
        }
    }
}

/// Reads the publishing date off the form, once an author is chosen. Whether
/// the date exists is for the calendar to say.
pub fn publish_date_fields(
    author_id: Option<i64>,
    year: &str,
    month_selected: u32,
    day: &str,
) -> (date: Result<DateFields, BookFormError>)
    ensures
        date == publish_date_of(author_id, year@, month_selected, day@),
{
    if author_id.is_none() {
        return Err(BookFormError::NoAuthor);
    }
    match date_from_entries(year, month_selected, day, false) {
        Ok(Some(date)) => Ok(date),
        Ok(None) => vstd::pervasive::unreached(),
        Err(DateEntryError::Year) => Err(BookFormError::Year),
        Err(DateEntryError::Day) => Err(BookFormError::Day),
    }
}

/// The second half of reading the form: the request to send, once the
/// calendar has turned the date into a moment (`None`: it refused). The
/// number of copies has to be a whole number.
pub fn book_request(
    book_id: Option<i64>,
    title: String,
    author_id: i64,
    publish_date: Option<i64>,
    publisher: String,
    count: &str,
    synopsis: String,
    cookie: Cookie,
) -> (request: Result<ChangeBookDetailsRequest, BookFormError>)
    ensures
        publish_date is None ==> request == Err::<ChangeBookDetailsRequest, BookFormError>(
            BookFormError::InvalidDate,
        ),
        publish_date is Some && integer_i64(count@) is None ==> request == Err::<
            ChangeBookDetailsRequest,
            BookFormError,
        >(BookFormError::Count),
        publish_date is Some && integer_i64(count@) is Some ==> request == Ok::<
            ChangeBookDetailsRequest,
            BookFormError,
        >(
            ChangeBookDetailsRequest {
                book_id,
                title,
                author_id,
                publish_date: publish_date.unwrap(),
                publisher,
                count: integer_i64(count@).unwrap(),
                synopsis,
                cookie,
            },
        ),
{
    let publish_date = match publish_date {
        Some(moment) => moment,
        None => { return Err(BookFormError::InvalidDate); },
    };
    let count = match parse_i64(count) {
        Some(count) => count,
        None => { return Err(BookFormError::Count); },
    };
    Ok(
        ChangeBookDetailsRequest {
            book_id,
            title,
            author_id,
            publish_date,
            publisher,
            count,
            synopsis,
            cookie,
        },
    )
}

} // verus!

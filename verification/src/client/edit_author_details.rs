//! The form that adds an author.

use vstd::prelude::*;

use crate::client::time::{date_from_entries, date_of_entries, DateEntryError, DateFields};
use crate::schema::books::ChangeAuthorDetailsRequest;
use crate::schema::session::Cookie;

verus! {

/// The endpoint that takes the form.
pub const CHANGE_AUTHOR_DETAILS: &'static str = "/change-author-details";

/// How the form calls the date of birth when it complains about it.
pub const BIRTH_CONTEXT: &'static str = "nașterii";

/// How the form calls the date of death when it complains about it.
pub const DEATH_CONTEXT: &'static str = "decesului";

/// Reads the date of birth off the form: both year and day have to be
/// numbers.
pub fn birth_date(year: &str, month_selected: u32, day: &str) -> (date: Result<
    DateFields,
    DateEntryError,
>)
    ensures
        date == match date_of_entries(year@, month_selected, day@, false) {
            Ok(date) => Ok::<DateFields, DateEntryError>(date.unwrap()),
            Err(e) => Err::<DateFields, DateEntryError>(e),
        },
{
    match date_from_entries(year, month_selected, day, false) {
        Ok(Some(date)) => Ok(date),
        Ok(None) => vstd::pervasive::unreached(),
        Err(e) => Err(e),
    }
}

/// Reads the date of death off the form. Blank entries are not taken for
/// "still alive": year and day have to be numbers here too.
pub fn death_date(year: &str, month_selected: u32, day: &str) -> (date: Result<
    Option<DateFields>,
    DateEntryError,
>)
    ensures
        date == date_of_entries(year@, month_selected, day@, false),
{
    date_from_entries(year, month_selected, day, false)
}

/// The request to add an author. It never names an author to rewrite.
pub fn author_request(
    name: String,
    date_of_birth: i64,
    date_of_death: Option<i64>,
    description: String,
    cookie: Cookie,
) -> (request: ChangeAuthorDetailsRequest)
    ensures
        request == (ChangeAuthorDetailsRequest {
            author_id: None,
            name,
            date_of_birth,
            date_of_death,
            description,
            cookie,
        }),
{
    ChangeAuthorDetailsRequest {
        author_id: None,
        name,
        date_of_birth,
        date_of_death,
        description,
        cookie,
    }
}

} // verus!

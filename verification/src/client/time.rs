//! Deadlines and dates as a client shows them.

use vstd::prelude::*;

use crate::client::text::{decimal, integer_i32, parse_i32, push_decimal, push_digits};

verus! {

/// How many seconds a day lasts.
pub const SECONDS_PER_DAY: i64 = 86400;

/// How many days an author's year is counted as.
pub const DAYS_PER_YEAR: i64 = 365;

/// A loan with this many days left, or fewer, is shown as pressing.
pub const PRESSING_DAYS: i64 = 3;

/// The whole days in a span of seconds, cut off towards zero.
pub open spec fn whole_days(seconds: int) -> int {
    if seconds >= 0 {
        seconds / (SECONDS_PER_DAY as int)
    } else {
        -((-seconds) / (SECONDS_PER_DAY as int))
    }
}

/// The whole days from `from` to `to`; negative where `to` is a day or more
/// before `from`.
pub open spec fn days_between(from: i64, to: i64) -> int {
    whole_days(to - from)
}

/// The whole days left until the deadline `valid_until`, counted from `now`:
/// positive while there is a day or more to go, zero within a day of the
/// deadline, negative once it has passed by a day or more.
pub fn remaining_days(valid_until: i64, now: i64) -> (days: i64)
    ensures
        days == days_between(now, valid_until),
        valid_until <= now ==> days <= 0,
        valid_until >= now ==> days >= 0,
{
    let seconds: i128 = valid_until as i128 - now as i128;
    if seconds >= 0 {
        (seconds / SECONDS_PER_DAY as i128) as i64
    } else {
        -(((-seconds) / SECONDS_PER_DAY as i128) as i64)
    }
}

/// Where a loan stands with respect to its deadline.
#[derive(Debug, Clone, Copy, PartialEq, Eq, Structural)]
pub enum DeadlineStatus {
    /// So many days remain.
    Remaining(i64),
    /// The book is due today.
    DueToday,
    /// The book is overdue by so many days.
    Overdue(i64),
}

/// Where a loan with so many days left stands.
pub open spec fn status_of(remaining_days: i64) -> DeadlineStatus {
    if remaining_days > 0 {
        DeadlineStatus::Remaining(remaining_days)
    } else if remaining_days == 0 {
        DeadlineStatus::DueToday
    } else {
        DeadlineStatus::Overdue((-remaining_days) as i64)
    }
}

/// Where a loan stands at the moment `now`.
pub fn deadline_status(valid_until: i64, now: i64) -> (status: DeadlineStatus)
    ensures
        status == status_of(days_between(now, valid_until) as i64),
{
    let days = remaining_days(valid_until, now);
    if days > 0 {
        DeadlineStatus::Remaining(days)
    } else if days == 0 {
        DeadlineStatus::DueToday
    } else {
        DeadlineStatus::Overdue(-days)
    }
}

/// Whether a loan with so many days left is shown in red.
pub fn is_pressing(remaining_days: i64) -> (pressing: bool)
    ensures
        pressing == (remaining_days <= PRESSING_DAYS),
{
    remaining_days <= PRESSING_DAYS
}

/// The markup that shows a deadline: the date as `date` spells it, then in
/// brackets the days that remain (in red from three days down), "today", or
/// the days by which the book is overdue.
pub open spec fn deadline_markup(date: Seq<char>, remaining_days: i64) -> Seq<char> {
    if remaining_days > 0 {
        date + " (<span "@ + (if remaining_days <= PRESSING_DAYS {
            "color=\"red\""@
        } else {
            ""@
        }) + ">"@ + decimal(remaining_days as int) + " zile rămase</span>)"@
    } else if remaining_days == 0 {
        date + " (<span color=\"red\" weight=\"bold\">astăzi</span>)"@
    } else {
        date + " (<span weight=\"bold\">întarziere de "@ + decimal(-remaining_days)
            + " zile</span>)"@
    }
}

/// Writes the markup that shows a deadline.
pub fn deadline_label(date: &str, remaining_days: i64) -> (label: String)
    ensures
        label@ == deadline_markup(date@, remaining_days),
{
    let mut label = String::from_str(date);
    if remaining_days > 0 {
        label.append(" (<span ");
        if is_pressing(remaining_days) {
            label.append("color=\"red\"");
        } else {
            label.append("");
        }
        label.append(">");
        push_decimal(&mut label, remaining_days);
        label.append(" zile rămase</span>)");
    } else if remaining_days == 0 {
        label.append(" (<span color=\"red\" weight=\"bold\">astăzi</span>)");
    } else {
        label.append(" (<span weight=\"bold\">întarziere de ");
        push_digits(&mut label, (-(remaining_days as i128)) as u64);
        label.append(" zile</span>)");
    }
    label
}

/// The whole years of 365 days in a number of days, cut off towards zero.
pub open spec fn whole_years(days: int) -> int {
    if days >= 0 {
        days / (DAYS_PER_YEAR as int)
    } else {
        -((-days) / (DAYS_PER_YEAR as int))
    }
}

/// The age an author reached: the whole days from birth to death, in years
/// of 365 days.
pub fn age_in_years(date_of_birth: i64, date_of_death: i64) -> (years: i64)
    ensures
        years == whole_years(days_between(date_of_birth, date_of_death)),
{
    let days = remaining_days(date_of_death, date_of_birth);
    if days >= 0 {
        days / DAYS_PER_YEAR
    } else {
        -((-days) / DAYS_PER_YEAR)
    }
}

/// A date as a form gives it: not yet known to exist in any calendar.
#[derive(Debug, Clone, Copy, PartialEq, Eq, Structural)]
pub struct DateFields {
    pub year: i32,
    /// The month, counted from 1.
    pub month: i64,
    pub day: i32,
}

/// Which entry of a date could not be read.
#[derive(Debug, Clone, Copy, PartialEq, Eq, Structural)]
pub enum DateEntryError {
    /// The year is no number.
    Year,
    /// The day is no number.
    Day,
}

/// What the entries of a date hold: no date at all where that is allowed and
/// year and day are both blank; else the year, the month that follows the
/// `month_selected` months before it, and the day; the year is read first.
pub open spec fn date_of_entries(
    year: Seq<char>,
    month_selected: u32,
    day: Seq<char>,
    allow_empty: bool,
) -> Result<Option<DateFields>, DateEntryError> {
    if allow_empty && year.len() == 0 && day.len() == 0 {
        Ok(None)
    } else if integer_i32(year) is None {
        Err(DateEntryError::Year)
    } else if integer_i32(day) is None {
        Err(DateEntryError::Day)
    } else {
        Ok(
            Some(
                DateFields {
                    year: integer_i32(year).unwrap(),
                    month: (month_selected + 1) as i64,
                    day: integer_i32(day).unwrap(),
                },
            ),
        )
    }
}

/// Reads the entries of a date.
pub fn date_from_entries(year: &str, month_selected: u32, day: &str, allow_empty: bool) -> (date:
    Result<Option<DateFields>, DateEntryError>)
    ensures
        date == date_of_entries(year@, month_selected, day@, allow_empty),
{
    if allow_empty && year.is_empty() && day.is_empty() {
        return Ok(None);
    }
    let year = match parse_i32(year) {
        Some(year) => year,
        None => { return Err(DateEntryError::Year); },
    };
    let month = month_selected as i64 + 1;
    let day = match parse_i32(day) {
        Some(day) => day,
        None => { return Err(DateEntryError::Day); },
    };
    Ok(Some(DateFields { year, month, day }))
}

/// What the client says when an entry of the date of `context` could not be
/// read.
pub open spec fn date_entry_message(error: DateEntryError, context: Seq<char>) -> Seq<char> {
    match error {
        DateEntryError::Year => "Anul "@ + context + " trebuie să fie un număr"@,
        DateEntryError::Day => "Ziua "@ + context + " trebuie să fie un număr"@,
    }
}

impl DateEntryError {
    /// What the client says of this error, for the date of `context`.
    pub fn message(self, context: &str) -> (message: String)
        ensures
            message@ == date_entry_message(self, context@),
    {
        let mut message = match self {
            DateEntryError::Year => String::from_str("Anul "),
            DateEntryError::Day => String::from_str("Ziua "),
        };
        message.append(context);
        message.append(" trebuie să fie un număr");
        message
    }
}

/// What the client says of entries that spell no date of the calendar;
/// `cause` is the calendar's reason.
pub fn invalid_date_message(cause: &str) -> (message: String)
    ensures
        message@ == "Detaliile introduse nu au format o dată validă: "@ + cause@,
{
    let mut message = String::from_str("Detaliile introduse nu au format o dată validă: ");
    message.append(cause);
    message
}

} // verus!

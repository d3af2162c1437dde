//! The wall clock, as `chrono` reads it.

use chrono::{Days, Local};
use vstd::prelude::*;

verus! {

/// The present moment in seconds since the Unix epoch: `chrono::Local::now`,
/// read off with `timestamp`. Nothing is promised of the value: it is
/// whatever the machine's clock says.
#[verifier::external_body]
pub(crate) fn now_timestamp() -> (now: i64) {
    Local::now().timestamp()
}

/// The moment `days` calendar days from now in the machine's time zone, in
/// seconds since the Unix epoch: `chrono::DateTime::checked_add_days` on
/// `Local::now`. It is `None` where that local time does not exist, is
/// ambiguous or is out of range. Nothing else is promised of the value: the
/// clock and the time zone decide it. The bound on `days` keeps the date
/// within the years that the time zone's rules cover.
#[verifier::external_body]
pub(crate) fn deadline_after_days(days: u64) -> (deadline: Option<i64>)
    requires
        days <= 366,
{
    Local::now().checked_add_days(Days::new(days)).map(|moment| moment.timestamp())
}

} // verus!

//! The current date, read once from the system clock.
//!
//! Everything else in this library takes the reference date as an argument,
//! so the clock is consulted only here.

use vstd::prelude::*;

use crate::date::{Date, MAX_YEAR, MIN_YEAR};

use chrono::Datelike;

verus! {

/// Relies on chrono's `Local::now` and `DateTime::date_naive` for the
/// current civil date in the local time zone; `Datelike::month` is
/// documented to lie in `1..=12` and `Datelike::day` in `1..=31`.
#[verifier::external_body]
fn local_now_ymd() -> (r: (i64, u8, u8))
    ensures
        1 <= r.1 <= 12,
        1 <= r.2 <= 31,
{
    let d = chrono::Local::now().date_naive();
    (d.year() as i64, d.month() as u8, d.day() as u8)
}

/// The current local date, when it lies in this library's representable
/// range of years.
pub fn today() -> (r: Option<Date>)
    ensures
        r matches Some(d) ==> d.wf() && MIN_YEAR <= d.year,
{
    let (y, m, d) = local_now_ymd();
    if (MIN_YEAR as i64) <= y && y <= (MAX_YEAR as i64) {
        Date::new(y as u16, m, d)
    } else {
        None
    }
}

} // verus!

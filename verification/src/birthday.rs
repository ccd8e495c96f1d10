//! The birthday occurrence calculator.
//!
//! Given a date of birth and a reference date, [`describe`] says whether the
//! birthday is today or in how many days it next occurs. A birthday of
//! February 29 is observed on March 1 in common years; that is this
//! library's fixed policy for leap-day birthdays.

use vstd::prelude::*;

use crate::date::{
    day_number, day_number_of, is_leap, is_leap_year, valid_ymd, Date, MIN_YEAR,
};
use crate::decimal::{dec_rep, u64_to_string};

verus! {

/// The month and day on which `dob`'s birthday is observed in year `y`:
/// the month and day of birth, except that February 29 is observed on
/// March 1 when `y` is a common year.
pub open spec fn occurrence_md(dob: Date, y: int) -> (int, int) {
    if dob.month == 2 && dob.day == 29 && !is_leap_year(y) {
        (3, 1)
    } else {
        (dob.month as int, dob.day as int)
    }
}

/// Days from `now` to the next occurrence of the birthday: the distance to
/// this year's occurrence, or, when that already passed, to next year's.
pub open spec fn days_until_birthday(dob: Date, now: Date) -> int {
    let y = now.year as int;
    let md = occurrence_md(dob, y);
    let delta = day_number(y, md.0, md.1) - day_number(y, now.month as int, now.day as int);
    if delta < 0 {
        let md2 = occurrence_md(dob, y + 1);
        day_number(y + 1, md2.0, md2.1) - day_number(y, now.month as int, now.day as int)
    } else {
        delta
    }
}

/// The greeting for a birthday that is today.
pub open spec fn happy_message(u: Seq<char>) -> Seq<char> {
    "Hello, "@ + u + "! Happy birthday!"@
}

/// The greeting for a birthday `n` days away.
pub open spec fn days_message(u: Seq<char>, n: int) -> Seq<char> {
    "Hello, "@ + u + "! Your birthday is in "@ + dec_rep(n as nat) + " day(s)"@
}

/// The message for `u` with date of birth `dob`, seen from `now`.
pub open spec fn describe_spec(u: Seq<char>, dob: Date, now: Date) -> Seq<char> {
    if occurrence_md(dob, now.year as int) == (now.month as int, now.day as int) {
        happy_message(u)
    } else {
        days_message(u, days_until_birthday(dob, now))
    }
}

/// The observed month and day are a real calendar date in the target year.
proof fn lemma_occurrence_valid(dob: Date, y: int)
    requires
        dob.wf(),
    ensures
        valid_ymd(y, occurrence_md(dob, y).0, occurrence_md(dob, y).1),
{
}

/// When the birthday's occurrence in `now`'s year is not `now` itself, the
/// number of days until the next occurrence is at least 1: the message
/// never announces a birthday "in 0 day(s)".
pub proof fn lemma_days_until_birthday_positive(dob: Date, now: Date)
    requires
        dob.wf(),
        now.wf(),
        MIN_YEAR <= now.year,
        occurrence_md(dob, now.year as int) != (now.month as int, now.day as int),
    ensures
        days_until_birthday(dob, now) >= 1,
{
    let y = now.year as int;
    let md = occurrence_md(dob, y);
    lemma_occurrence_valid(dob, y);
    let delta = day_number(y, md.0, md.1) - day_number(y, now.month as int, now.day as int);
    if delta < 0 {
        let md2 = occurrence_md(dob, y + 1);
        lemma_occurrence_valid(dob, y + 1);
        crate::date::lemma_next_year_later(y, now.month as int, now.day as int, md2.0, md2.1);
    } else if delta == 0 {
        crate::date::lemma_day_number_injective(
            y,
            md.0,
            md.1,
            now.month as int,
            now.day as int,
        );
    }
}

/// When the occurrence in `now`'s year is `now` itself, the message is
/// exactly the birthday greeting.
pub proof fn lemma_birthday_today_message(u: Seq<char>, dob: Date, now: Date)
    requires
        occurrence_md(dob, now.year as int) == (now.month as int, now.day as int),
    ensures
        describe_spec(u, dob, now) == happy_message(u),
{
}

/// Compute the birthday message for `username`, seen from `now`.
pub fn describe(username: &str, dob: &Date, now: &Date) -> (r: String)
    requires
        dob.wf(),
        now.wf(),
        MIN_YEAR <= now.year,
    ensures
        r@ == describe_spec(username@, *dob, *now),
{
    let md = if dob.month == 2 && dob.day == 29 && !is_leap(now.year) {
        (3u8, 1u8)
    } else {
        (dob.month, dob.day)
    };
    if md.0 == now.month && md.1 == now.day {
        let mut msg = String::from_str("Hello, ");
        msg.append(username);
        msg.append("! Happy birthday!");
        proof {
            assert(msg@ =~= happy_message(username@));
        }
        return msg;
    }
    proof {
        lemma_occurrence_valid(*dob, now.year as int);
    }
    let occ = day_number_of(now.year, md.0, md.1);
    let now_num = day_number_of(now.year, now.month, now.day);
    let days: u64;
    if occ < now_num {
        let md2 = if dob.month == 2 && dob.day == 29 && !is_leap(now.year + 1) {
            (3u8, 1u8)
        } else {
            (dob.month, dob.day)
        };
        proof {
            lemma_occurrence_valid(*dob, now.year as int + 1);
            crate::date::lemma_next_year_later(
                now.year as int,
                now.month as int,
                now.day as int,
                md2.0 as int,
                md2.1 as int,
            );
        }
        let occ2 = day_number_of(now.year + 1, md2.0, md2.1);
        days = (occ2 - now_num) as u64;
    } else {
        days = (occ - now_num) as u64;
    }
    let mut msg = String::from_str("Hello, ");
    msg.append(username);
    msg.append("! Your birthday is in ");
    let rendered = u64_to_string(days);
    msg.append(rendered.as_str());
    msg.append(" day(s)");
    proof {
        assert(days == days_until_birthday(*dob, *now));
        assert(msg@ =~= days_message(username@, days_until_birthday(*dob, *now)));
    }
    msg
}

/// The body of a successful birthday lookup.
pub struct GetBirthdayResponse {
    pub message: String,
}

impl GetBirthdayResponse {
    /// Build the response for `username`, seen from `now`.
    ///
    /// The message depends on the user's birthday:
    ///   - if the birthday is observed today, it is
    ///     `"Hello, {username}! Happy birthday!"`;
    ///   - otherwise it is
    ///     `"Hello, {username}! Your birthday is in {days} day(s)"`.
    pub fn new(username: &str, dob: &Date, now: &Date) -> (r: GetBirthdayResponse)
        requires
            dob.wf(),
            now.wf(),
            MIN_YEAR <= now.year,
        ensures
            r.message@ == describe_spec(username@, *dob, *now),
    {
        GetBirthdayResponse { message: describe(username, dob, now) }
    }
}

} // verus!

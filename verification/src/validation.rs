//! Request validation: usernames and dates of birth.
//!
//! Both validators are pure: they turn an untrusted string into a domain
//! value or say exactly why they refuse it.

use vstd::prelude::*;

use crate::date::{
    check_date_format, date_lt, date_str, days_in_month_of, is_date_format,
    lemma_date_str_parses, parsed_day, parsed_month, parsed_year, read_ymd, valid_ymd, Date,
    MIN_YEAR,
};

verus! {

/// Why an input was rejected.
#[derive(Clone, Copy, PartialEq, Eq, Structural, Debug)]
pub enum ValidationError {
    /// The username is the empty string.
    EmptyInput,
    /// The username holds a character outside `A..Z` and `a..z`.
    InvalidCharacters,
    /// The date string does not have the `YYYY-MM-DD` shape.
    BadFormat,
    /// The date string has the right shape but denotes no real calendar
    /// date.
    UnparsableDate,
    /// The date lies before 1900-01-01 or not strictly before the reference
    /// date.
    OutOfRange,
}

/// `c` is an ASCII letter.
pub open spec fn is_letter(c: char) -> bool {
    ||| ('A' as u32) <= (c as u32) <= ('Z' as u32)
    ||| ('a' as u32) <= (c as u32) <= ('z' as u32)
}

/// A username: non-empty, letters only.
pub open spec fn valid_username(s: Seq<char>) -> bool {
    s.len() > 0 && forall|i: int| 0 <= i < s.len() ==> is_letter(#[trigger] s[i])
}

/// A username that passed validation, case preserved.
pub struct ValidatedUsername(pub String);

/// Executable letter test.
pub fn is_letter_char(c: char) -> (r: bool)
    ensures
        r == is_letter(c),
{
    let u = c as u32;
    (('A' as u32) <= u && u <= ('Z' as u32)) || (('a' as u32) <= u && u <= ('z' as u32))
}

/// Validate a path username: non-empty and made of letters only, returned
/// unchanged. No length cap is imposed: any number of letters is accepted.
pub fn validate_username(username: &str) -> (r: Result<ValidatedUsername, ValidationError>)
    ensures
        match r {
            Ok(v) => valid_username(username@) && v.0@ == username@,
            Err(e) => {
                &&& !valid_username(username@)
                &&& e == (if username@.len() == 0 {
                    ValidationError::EmptyInput
                } else {
                    ValidationError::InvalidCharacters
                })
            },
        },
{
    let n = username.unicode_len();
    if n == 0 {
        return Err(ValidationError::EmptyInput);
    }
    let mut i: usize = 0;
    while i < n
        invariant
            i <= n,
            n == username@.len(),
            forall|j: int| 0 <= j < i ==> is_letter(#[trigger] username@[j]),
        decreases n - i,
    {
        let c = username.get_char(i);
        if !is_letter_char(c) {
            return Err(ValidationError::InvalidCharacters);
        }
        i = i + 1;
    }
    Ok(ValidatedUsername(username.to_owned()))
}

/// The date of birth denoted by a string in `YYYY-MM-DD` shape.
pub open spec fn parsed_date(s: Seq<char>) -> Date {
    Date {
        year: parsed_year(s) as u16,
        month: parsed_month(s) as u8,
        day: parsed_day(s) as u8,
    }
}

/// The range rule for dates of birth: at least 1900-01-01 and strictly
/// before the reference date.
pub open spec fn in_dob_range(d: Date, now: Date) -> bool {
    MIN_YEAR <= d.year && date_lt(d, now)
}

/// `s` denotes a date of birth that the service accepts relative to `now`.
pub open spec fn acceptable_dob(s: Seq<char>, now: Date) -> bool {
    &&& is_date_format(s)
    &&& valid_ymd(parsed_year(s), parsed_month(s), parsed_day(s))
    &&& in_dob_range(parsed_date(s), now)
}

/// Any date of birth from 1900-01-01 up to (but not including) the
/// reference date, rendered as `YYYY-MM-DD`, is accepted by the
/// date-of-birth validation and parses back to the same date.
pub proof fn lemma_dob_round_trip(d: Date, now: Date)
    requires
        d.wf(),
        MIN_YEAR <= d.year,
        date_lt(d, now),
    ensures
        acceptable_dob(date_str(d), now),
        parsed_date(date_str(d)) == d,
{
    lemma_date_str_parses(d);
}

/// Validate a date-of-birth string against the reference date `now`
/// (injected, so the rule is deterministic): the string must have the
/// `YYYY-MM-DD` shape, denote a real calendar date, and lie in
/// `[1900-01-01, now)`.
pub fn validate_dob(raw: &str, now: &Date) -> (r: Result<Date, ValidationError>)
    requires
        now.wf(),
    ensures
        match r {
            Ok(d) => {
                &&& acceptable_dob(raw@, *now)
                &&& d == parsed_date(raw@)
                &&& d.wf()
            },
            Err(e) => {
                &&& !acceptable_dob(raw@, *now)
                &&& (e == ValidationError::BadFormat <==> !is_date_format(raw@))
                &&& (e == ValidationError::UnparsableDate <==> is_date_format(raw@)
                    && !valid_ymd(parsed_year(raw@), parsed_month(raw@), parsed_day(raw@)))
                &&& (e == ValidationError::OutOfRange <==> is_date_format(raw@) && valid_ymd(
                    parsed_year(raw@),
                    parsed_month(raw@),
                    parsed_day(raw@),
                ) && !in_dob_range(parsed_date(raw@), *now))
                &&& (e != ValidationError::EmptyInput && e != ValidationError::InvalidCharacters)
            },
        },
{
    if !check_date_format(raw) {
        return Err(ValidationError::BadFormat);
    }
    let (y, m, d) = read_ymd(raw);
    if !(1 <= m && m <= 12 && 1 <= d && d <= days_in_month_of(y, m)) {
        return Err(ValidationError::UnparsableDate);
    }
    let date = Date { year: y, month: m, day: d };
    if y < MIN_YEAR || !crate::date::date_before(&date, now) {
        return Err(ValidationError::OutOfRange);
    }
    Ok(date)
}

} // verus!

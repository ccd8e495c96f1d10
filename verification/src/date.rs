//! Calendar dates as plain values.
//!
//! A [`Date`] is a proleptic Gregorian calendar date held as year, month and
//! day. The spec functions below give the calendar its meaning: leap years,
//! month lengths, and a day count from 1900-01-01 that turns a date into a
//! single number so that distances between dates are plain subtractions.

use vstd::arithmetic::div_mod::{lemma_div_denominator, lemma_fundamental_div_mod};
use vstd::prelude::*;

use crate::decimal::{digit_char, digit_val, is_digit_char};

verus! {

/// Smallest year a stored date of birth may carry.
pub const MIN_YEAR: u16 = 1900;

/// Largest year a `Date` may carry (four decimal digits).
pub const MAX_YEAR: u16 = 9999;

/// A year is a leap year if it is divisible by 4 but not by 100, or
/// divisible by 400.
pub open spec fn is_leap_year(y: int) -> bool {
    (y % 4 == 0 && y % 100 != 0) || y % 400 == 0
}

/// Number of days of month `m` in year `y` (months are 1-based).
pub open spec fn days_in_month(y: int, m: int) -> int {
    if m == 2 {
        if is_leap_year(y) {
            29
        } else {
            28
        }
    } else if m == 4 || m == 6 || m == 9 || m == 11 {
        30
    } else {
        31
    }
}

/// Number of days of year `y`.
pub open spec fn days_in_year(y: int) -> int {
    if is_leap_year(y) {
        366
    } else {
        365
    }
}

/// `(y, m, d)` denotes a real calendar date.
pub open spec fn valid_ymd(y: int, m: int, d: int) -> bool {
    &&& 1 <= m <= 12
    &&& 1 <= d <= days_in_month(y, m)
}

/// A calendar date.
#[derive(Clone, Copy, PartialEq, Eq, Structural, Debug)]
pub struct Date {
    pub year: u16,
    pub month: u8,
    pub day: u8,
}

impl Date {
    /// The date is a real calendar date with a four-digit year.
    pub open spec fn wf(self) -> bool {
        &&& self.year <= MAX_YEAR
        &&& valid_ymd(self.year as int, self.month as int, self.day as int)
    }

    /// Build a date, checking that it denotes a real calendar date.
    pub fn new(year: u16, month: u8, day: u8) -> (r: Option<Date>)
        ensures
            match r {
                Some(d) => ({
                    &&& d == (Date { year, month, day })
                    &&& d.wf()
                }),
                None => !(year <= MAX_YEAR && valid_ymd(
                    year as int,
                    month as int,
                    day as int,
                )),
            },
    {
        if year <= MAX_YEAR && 1 <= month && month <= 12 && 1 <= day && day
            <= days_in_month_of(year, month) {
            Some(Date { year, month, day })
        } else {
            None
        }
    }
}

/// Days of all years from 1900 (inclusive) up to `y` (exclusive).
pub open spec fn days_before_year(y: int) -> int
    decreases y,
{
    if y <= 1900 {
        0
    } else {
        days_before_year(y - 1) + days_in_year(y - 1)
    }
}

/// Days of all months of year `y` before month `m`.
pub open spec fn days_before_month(y: int, m: int) -> int
    decreases m,
{
    if m <= 1 {
        0
    } else {
        days_before_month(y, m - 1) + days_in_month(y, m - 1)
    }
}

/// The number of days from 1900-01-01 to `(y, m, d)`; 1900-01-01 itself is
/// day 0. Distances between dates are differences of day numbers.
pub open spec fn day_number(y: int, m: int, d: int) -> int {
    days_before_year(y) + days_before_month(y, m) + (d - 1)
}

/// `a` lies strictly before `b` in calendar order.
pub open spec fn date_lt(a: Date, b: Date) -> bool {
    ||| a.year < b.year
    ||| (a.year == b.year && a.month < b.month)
    ||| (a.year == b.year && a.month == b.month && a.day < b.day)
}

proof fn lemma_days_before_year_bound(y: int)
    requires
        1900 <= y,
    ensures
        365 * (y - 1900) <= days_before_year(y) <= 366 * (y - 1900),
    decreases y,
{
    if y > 1900 {
        lemma_days_before_year_bound(y - 1);
    }
}

proof fn lemma_days_before_month_le(y: int, m1: int, m2: int)
    requires
        m1 <= m2,
    ensures
        days_before_month(y, m1) <= days_before_month(y, m2),
    decreases m2 - m1,
{
    if m1 < m2 {
        lemma_days_before_month_le(y, m1, m2 - 1);
    }
}

proof fn lemma_days_before_month_full_year(y: int)
    ensures
        days_before_month(y, 13) == days_in_year(y),
{
    reveal_with_fuel(days_before_month, 14);
}

/// Within one year, a valid date's offset from January 1 stays below the
/// year's length.
proof fn lemma_within_year(y: int, m: int, d: int)
    requires
        valid_ymd(y, m, d),
    ensures
        0 <= days_before_month(y, m) + (d - 1) < days_in_year(y),
{
    lemma_days_before_month_le(y, 1, m);
    assert(days_before_month(y, m + 1) == days_before_month(y, m) + days_in_month(y, m));
    lemma_days_before_month_le(y, m + 1, 13);
    lemma_days_before_month_full_year(y);
}

/// Within one year, distinct valid dates have distinct day numbers.
pub proof fn lemma_day_number_injective(y: int, m1: int, d1: int, m2: int, d2: int)
    requires
        valid_ymd(y, m1, d1),
        valid_ymd(y, m2, d2),
        day_number(y, m1, d1) == day_number(y, m2, d2),
    ensures
        m1 == m2 && d1 == d2,
{
    if m1 < m2 {
        assert(days_before_month(y, m1 + 1) == days_before_month(y, m1) + days_in_month(y, m1));
        lemma_days_before_month_le(y, m1 + 1, m2);
    } else if m2 < m1 {
        assert(days_before_month(y, m2 + 1) == days_before_month(y, m2) + days_in_month(y, m2));
        lemma_days_before_month_le(y, m2 + 1, m1);
    }
}

/// Projecting a date one year ahead moves its day number past every day of
/// the current year.
pub proof fn lemma_next_year_later(y: int, m1: int, d1: int, m2: int, d2: int)
    requires
        1900 <= y,
        valid_ymd(y, m1, d1),
        valid_ymd(y + 1, m2, d2),
    ensures
        day_number(y + 1, m2, d2) > day_number(y, m1, d1),
{
    lemma_within_year(y, m1, d1);
    lemma_within_year(y + 1, m2, d2);
    assert(days_before_year(y + 1) == days_before_year(y) + days_in_year(y));
}

/// Executable day number, for years from 1900 up to one past `MAX_YEAR`
/// (so that a next-year projection can still be measured).
pub fn day_number_of(y: u16, m: u8, d: u8) -> (r: u32)
    requires
        1900 <= y <= MAX_YEAR + 1,
        valid_ymd(y as int, m as int, d as int),
    ensures
        r == day_number(y as int, m as int, d as int),
{
    let mut acc: u32 = 0;
    let mut yy: u16 = 1900;
    while yy < y
        invariant
            1900 <= yy <= y <= MAX_YEAR + 1,
            acc == days_before_year(yy as int),
            acc <= 366 * ((yy - 1900) as int),
        decreases y - yy,
    {
        if is_leap(yy) {
            acc = acc + 366;
        } else {
            acc = acc + 365;
        }
        yy = yy + 1;
    }
    let mut mm: u8 = 1;
    while mm < m
        invariant
            1 <= mm <= m <= 12,
            1900 <= y <= MAX_YEAR + 1,
            acc == days_before_year(y as int) + days_before_month(y as int, mm as int),
            days_before_year(y as int) <= 366 * ((y - 1900) as int),
            days_before_month(y as int, mm as int) <= 366,
        decreases m - mm,
    {
        proof {
            lemma_days_before_month_le(y as int, 1, mm as int + 1);
            lemma_days_before_month_le(y as int, mm as int + 1, 13);
            lemma_days_before_month_full_year(y as int);
        }
        acc = acc + days_in_month_of(y, mm) as u32;
        mm = mm + 1;
    }
    proof {
        lemma_days_before_year_bound(y as int);
    }
    acc + (d - 1) as u32
}

/// Executable calendar-order comparison.
pub fn date_before(a: &Date, b: &Date) -> (r: bool)
    ensures
        r == date_lt(*a, *b),
{
    if a.year != b.year {
        a.year < b.year
    } else if a.month != b.month {
        a.month < b.month
    } else {
        a.day < b.day
    }
}

/// `s` has the shape `YYYY-MM-DD`: ten characters, digits everywhere but
/// the two dashes. Shape only; the digits need not denote a real date.
pub open spec fn is_date_format(s: Seq<char>) -> bool {
    &&& s.len() == 10
    &&& forall|i: int|
        (0 <= i < 10 && i != 4 && i != 7) ==> is_digit_char(#[trigger] s[i])
    &&& s[4] == '-'
    &&& s[7] == '-'
}

/// The year denoted by the first four characters.
pub open spec fn parsed_year(s: Seq<char>) -> int {
    digit_val(s[0]) * 1000 + digit_val(s[1]) * 100 + digit_val(s[2]) * 10 + digit_val(s[3])
}

/// The month denoted by characters five and six.
pub open spec fn parsed_month(s: Seq<char>) -> int {
    digit_val(s[5]) * 10 + digit_val(s[6])
}

/// The day denoted by the last two characters.
pub open spec fn parsed_day(s: Seq<char>) -> int {
    digit_val(s[8]) * 10 + digit_val(s[9])
}

/// The canonical `YYYY-MM-DD` rendering of a date.
pub open spec fn date_str(d: Date) -> Seq<char> {
    let y = d.year as int;
    let m = d.month as int;
    let dd = d.day as int;
    seq![
        digit_char(y / 1000),
        digit_char((y / 100) % 10),
        digit_char((y / 10) % 10),
        digit_char(y % 10),
        '-',
        digit_char(m / 10),
        digit_char(m % 10),
        '-',
        digit_char(dd / 10),
        digit_char(dd % 10),
    ]
}

/// Executable digit test.
pub fn is_digit(c: char) -> (r: bool)
    ensures
        r == is_digit_char(c),
{
    let u = c as u32;
    ('0' as u32) <= u && u <= ('9' as u32)
}

/// Check that `raw` has the `YYYY-MM-DD` shape.
pub fn check_date_format(raw: &str) -> (r: bool)
    ensures
        r == is_date_format(raw@),
{
    let n = raw.unicode_len();
    if n != 10 {
        return false;
    }
    let mut i: usize = 0;
    while i < 10
        invariant
            i <= 10,
            raw@.len() == 10,
            forall|j: int|
                (0 <= j < i && j != 4 && j != 7) ==> is_digit_char(#[trigger] raw@[j]),
            forall|j: int| 0 <= j < i && j == 4 ==> raw@[j] == '-',
            forall|j: int| 0 <= j < i && j == 7 ==> raw@[j] == '-',
        decreases 10 - i,
    {
        let c = raw.get_char(i);
        if i == 4 || i == 7 {
            if c != '-' {
                return false;
            }
        } else {
            if !is_digit(c) {
                return false;
            }
        }
        i = i + 1;
    }
    true
}

/// Read one digit character at position `i`.
fn digit_at(raw: &str, i: usize) -> (v: u8)
    requires
        i < raw@.len(),
        is_digit_char(raw@[i as int]),
    ensures
        v == digit_val(raw@[i as int]),
        v < 10,
{
    let c = raw.get_char(i);
    ((c as u32) - ('0' as u32)) as u8
}

/// Read the year, month and day fields of a string in `YYYY-MM-DD` shape.
pub fn read_ymd(raw: &str) -> (t: (u16, u8, u8))
    requires
        is_date_format(raw@),
    ensures
        t.0 == parsed_year(raw@),
        t.1 == parsed_month(raw@),
        t.2 == parsed_day(raw@),
{
    let y = (digit_at(raw, 0) as u16) * 1000 + (digit_at(raw, 1) as u16) * 100 + (digit_at(
        raw,
        2,
    ) as u16) * 10 + (digit_at(raw, 3) as u16);
    let m = digit_at(raw, 5) * 10 + digit_at(raw, 6);
    let d = digit_at(raw, 8) * 10 + digit_at(raw, 9);
    (y, m, d)
}

/// Parse a `YYYY-MM-DD` string into a date, if it denotes a real calendar
/// date.
pub fn parse_date(raw: &str) -> (r: Option<Date>)
    ensures
        match r {
            Some(d) => {
                &&& is_date_format(raw@)
                &&& valid_ymd(parsed_year(raw@), parsed_month(raw@), parsed_day(raw@))
                &&& d.year == parsed_year(raw@)
                &&& d.month == parsed_month(raw@)
                &&& d.day == parsed_day(raw@)
                &&& d.wf()
            },
            None => !(is_date_format(raw@) && valid_ymd(
                parsed_year(raw@),
                parsed_month(raw@),
                parsed_day(raw@),
            )),
        },
{
    if !check_date_format(raw) {
        return None;
    }
    let (y, m, d) = read_ymd(raw);
    if 1 <= m && m <= 12 && 1 <= d && d <= days_in_month_of(y, m) {
        Some(Date { year: y, month: m, day: d })
    } else {
        None
    }
}

/// Render a date as `YYYY-MM-DD`.
pub fn format_date(d: &Date) -> (r: String)
    requires
        d.wf(),
    ensures
        r@ == date_str(*d),
{
    proof {
        reveal_strlit("-");
    }
    let y = d.year;
    let m = d.month;
    let dd = d.day;
    let mut out = String::new();
    out.append(crate::decimal::digit_str((y / 1000) as u8));
    out.append(crate::decimal::digit_str(((y / 100) % 10) as u8));
    out.append(crate::decimal::digit_str(((y / 10) % 10) as u8));
    out.append(crate::decimal::digit_str((y % 10) as u8));
    out.append("-");
    out.append(crate::decimal::digit_str(m / 10));
    out.append(crate::decimal::digit_str(m % 10));
    out.append("-");
    out.append(crate::decimal::digit_str(dd / 10));
    out.append(crate::decimal::digit_str(dd % 10));
    proof {
        assert(out@ =~= date_str(*d));
    }
    out
}

/// Formatting a date and reading the fields back yields the same date: the
/// canonical rendering is faithful.
pub proof fn lemma_date_str_parses(d: Date)
    requires
        d.wf(),
    ensures
        is_date_format(date_str(d)),
        parsed_year(date_str(d)) == d.year,
        parsed_month(date_str(d)) == d.month,
        parsed_day(date_str(d)) == d.day,
{
    let y = d.year as int;
    let m = d.month as int;
    let dd = d.day as int;
    lemma_digit_char_val(y / 1000);
    lemma_digit_char_val((y / 100) % 10);
    lemma_digit_char_val((y / 10) % 10);
    lemma_digit_char_val(y % 10);
    lemma_digit_char_val(m / 10);
    lemma_digit_char_val(m % 10);
    lemma_digit_char_val(dd / 10);
    lemma_digit_char_val(dd % 10);
    lemma_fundamental_div_mod(y, 10);
    lemma_fundamental_div_mod(y / 10, 10);
    lemma_fundamental_div_mod(y / 100, 10);
    lemma_div_denominator(y, 10, 10);
    lemma_div_denominator(y, 100, 10);
    lemma_fundamental_div_mod(m, 10);
    lemma_fundamental_div_mod(dd, 10);
}

/// A digit character carries exactly its digit value.
proof fn lemma_digit_char_val(v: int)
    requires
        0 <= v <= 9,
    ensures
        is_digit_char(digit_char(v)),
        digit_val(digit_char(v)) == v,
{
}

/// Executable leap-year test.
pub fn is_leap(y: u16) -> (r: bool)
    ensures
        r == is_leap_year(y as int),
{
    (y % 4 == 0 && y % 100 != 0) || y % 400 == 0
}

/// Executable month length.
pub fn days_in_month_of(y: u16, m: u8) -> (r: u8)
    ensures
        r == days_in_month(y as int, m as int),
{
    if m == 2 {
        if is_leap(y) {
            29
        } else {
            28
        }
    } else if m == 4 || m == 6 || m == 9 || m == 11 {
        30
    } else {
        31
    }
}

} // verus!

use birthday_service::birthday::{describe, GetBirthdayResponse};
use birthday_service::clock::today;
use birthday_service::date::{day_number_of, format_date, parse_date, Date};
use birthday_service::decimal::u64_to_string;

use chrono::Datelike;

fn date_of(naive: chrono::NaiveDate) -> Date {
    Date::new(naive.year() as u16, naive.month() as u8, naive.day() as u8).unwrap()
}

#[test]
fn test_get_birthday_response_with_one_day_until_birthday() {
    let this_year = chrono::Local::now().naive_local().date().year();
    let tomorrow_last_year = chrono::Local::now()
        .naive_local()
        .date()
        .succ_opt()
        .unwrap()
        .with_year(this_year - 1)
        .unwrap();

    let now = today().unwrap();
    let res = GetBirthdayResponse::new("foo", &date_of(tomorrow_last_year), &now);
    assert_eq!(res.message, "Hello, foo! Your birthday is in 1 day(s)");
}

#[test]
fn test_get_birthday_response_with_birthday_today() {
    let this_year = chrono::Local::now().naive_local().date().year();
    let today_last_year = chrono::Local::now()
        .naive_local()
        .date()
        .with_year(this_year - 1)
        .unwrap();

    let now = today().unwrap();
    let res = GetBirthdayResponse::new("foo", &date_of(today_last_year), &now);
    assert_eq!(res.message, "Hello, foo! Happy birthday!");
}

#[test]
fn test_get_birthday_response_with_birthday_already_passed() {
    let this_year = chrono::Local::now().naive_local().date().year();
    let yesterday_last_year = chrono::Local::now()
        .naive_local()
        .date()
        .pred_opt()
        .unwrap()
        .with_year(this_year - 1)
        .unwrap();

    let now = today().unwrap();
    let res = GetBirthdayResponse::new("foo", &date_of(yesterday_last_year), &now);
    assert!(res.message.starts_with("Hello, foo! Your birthday is in 36"));
}

#[test]
fn test_birthday_tomorrow_across_year_boundary() {
    let dob = Date::new(2021, 1, 1).unwrap();
    let now = Date::new(2024, 12, 31).unwrap();
    assert_eq!(
        describe("foo", &dob, &now),
        "Hello, foo! Your birthday is in 1 day(s)"
    );
}

#[test]
fn test_birthday_tomorrow_same_year() {
    let dob = Date::new(2021, 1, 2).unwrap();
    let now = Date::new(2024, 1, 1).unwrap();
    assert_eq!(
        describe("foo", &dob, &now),
        "Hello, foo! Your birthday is in 1 day(s)"
    );
}

#[test]
fn test_birthday_today_fixed_date() {
    let dob = Date::new(2000, 3, 10).unwrap();
    let now = Date::new(2024, 3, 10).unwrap();
    assert_eq!(describe("foo", &dob, &now), "Hello, foo! Happy birthday!");
}

#[test]
fn test_leap_day_birthday_in_common_year() {
    // A birthday of February 29 is observed on March 1 in common years.
    let dob = Date::new(2000, 2, 29).unwrap();
    let on_feb_28 = Date::new(2023, 2, 28).unwrap();
    assert_eq!(
        describe("foo", &dob, &on_feb_28),
        "Hello, foo! Your birthday is in 1 day(s)"
    );
    let on_mar_1 = Date::new(2023, 3, 1).unwrap();
    assert_eq!(describe("foo", &dob, &on_mar_1), "Hello, foo! Happy birthday!");
}

#[test]
fn test_leap_day_birthday_in_leap_year() {
    let dob = Date::new(2000, 2, 29).unwrap();
    let on_feb_28 = Date::new(2024, 2, 28).unwrap();
    assert_eq!(
        describe("foo", &dob, &on_feb_28),
        "Hello, foo! Your birthday is in 1 day(s)"
    );
    let on_feb_29 = Date::new(2024, 2, 29).unwrap();
    assert_eq!(describe("foo", &dob, &on_feb_29), "Hello, foo! Happy birthday!");
}

#[test]
fn test_birthday_a_year_minus_one_day_away() {
    // The day after the birthday, the next occurrence is a year less a day
    // ahead: 365 days across a common February, 366 across a leap one.
    let dob = Date::new(2000, 3, 10).unwrap();
    let now = Date::new(2023, 3, 11).unwrap();
    assert_eq!(
        describe("foo", &dob, &now),
        "Hello, foo! Your birthday is in 365 day(s)"
    );
    let now = Date::new(2023, 3, 9).unwrap();
    assert_eq!(
        describe("foo", &dob, &now),
        "Hello, foo! Your birthday is in 1 day(s)"
    );
}

#[test]
fn test_day_numbers() {
    assert_eq!(day_number_of(1900, 1, 1), 0);
    assert_eq!(day_number_of(1900, 12, 31), 364);
    assert_eq!(day_number_of(1901, 1, 1), 365);
    // 1904 is a leap year: four full years, then January and a leap
    // February.
    assert_eq!(day_number_of(1904, 3, 1), 4 * 365 + 31 + 29);
    assert_eq!(day_number_of(2000, 3, 1), 36584);
}

#[test]
fn test_parse_and_format() {
    let d = parse_date("2021-01-01").unwrap();
    assert_eq!(d, Date::new(2021, 1, 1).unwrap());
    assert_eq!(format_date(&d), "2021-01-01");
    assert_eq!(format_date(&Date::new(1900, 1, 1).unwrap()), "1900-01-01");
    assert!(parse_date("2021-1-1").is_none());
    assert!(parse_date("2021-02-30").is_none());
    assert!(parse_date("2021/01/01").is_none());
}

#[test]
fn test_decimal_rendering() {
    assert_eq!(u64_to_string(0), "0");
    assert_eq!(u64_to_string(7), "7");
    assert_eq!(u64_to_string(10), "10");
    assert_eq!(u64_to_string(36), "36");
    assert_eq!(u64_to_string(u64::MAX), "18446744073709551615");
}

#[test]
fn test_today_is_plausible() {
    let now = today().unwrap();
    assert!(now.year >= 2020);
    assert!((1..=12).contains(&now.month));
    assert!((1..=31).contains(&now.day));
}

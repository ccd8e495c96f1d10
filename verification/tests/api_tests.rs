use birthday_service::api::{
    get_birthday, get_birthday_outcome, upsert_outcome, upsert_user, ApiError,
    UserBirthdayRequest,
};
use birthday_service::clock::today;
use birthday_service::date::Date;
use birthday_service::middleware::{
    close_scope, ensure_request_id, make_request_id, open_scope, record_outcome,
};
use birthday_service::store::{Store, StoreError};

use chrono::Datelike;

fn request(date_of_birth: &str) -> UserBirthdayRequest {
    UserBirthdayRequest {
        date_of_birth: date_of_birth.to_string(),
    }
}

#[test]
fn test_user_birthday_request_dob() {
    let req = request("2021-01-01");
    let res = req.dob();
    assert!(res.is_some());
    if let Some(res) = res {
        assert_eq!(res, Date::new(2021, 1, 1).unwrap());
    }
}

#[test]
fn test_upsert_user_birthday() {
    let mut store = Store::new();
    let now = today().unwrap();
    let res = upsert_user(&mut store, "foo", &request("2021-01-01"), &now);
    assert!(res.is_ok());
}

#[test]
fn test_get_user_birthday() {
    let this_year = chrono::Local::now().naive_local().date().year();
    let tomorrow_last_year = chrono::Local::now()
        .naive_local()
        .date()
        .succ_opt()
        .unwrap()
        .with_year(this_year - 1)
        .unwrap();
    let dob = Date::new(
        tomorrow_last_year.year() as u16,
        tomorrow_last_year.month() as u8,
        tomorrow_last_year.day() as u8,
    )
    .unwrap();

    let mut store = Store::new();
    store.upsert_birthday("foo".to_string(), dob);

    let now = today().unwrap();
    let res = get_birthday(&store, "foo", &now);
    assert!(res.is_ok());
    if let Ok(res) = res {
        assert_eq!(res.message, "Hello, foo! Your birthday is in 1 day(s)");
    }
}

#[test]
fn test_store_round_trip_and_last_write_wins() {
    let mut store = Store::new();
    let first = Date::new(1999, 9, 9).unwrap();
    let second = Date::new(2001, 1, 1).unwrap();

    store.upsert_birthday("ada".to_string(), first);
    assert_eq!(store.get_birthday("ada"), Some(first));

    // Writing the same value again changes nothing.
    store.upsert_birthday("ada".to_string(), first);
    assert_eq!(store.get_birthday("ada"), Some(first));

    // The last write wins.
    store.upsert_birthday("ada".to_string(), second);
    assert_eq!(store.get_birthday("ada"), Some(second));

    // Other usernames are untouched.
    assert_eq!(store.get_birthday("bob"), None);
}

#[test]
fn test_get_unknown_user_is_not_found() {
    let store = Store::new();
    let now = today().unwrap();
    let res = get_birthday(&store, "foo", &now);
    assert!(res.is_err());
    if let Err(e) = res {
        assert_eq!(e.status, 404);
        assert!(e.message.contains("foo"));
        assert_eq!(e.message, "User 'foo' was not found");
    }
}

#[test]
fn test_put_with_invalid_username() {
    let mut store = Store::new();
    let now = today().unwrap();
    let res = upsert_user(&mut store, "foo-bar", &request("2021-01-01"), &now);
    assert!(res.is_err());
    if let Err(e) = res {
        assert_eq!(e.status, 400);
        assert_eq!(e.message, "Invalid username. Only letters are allowed.");
    }
}

#[test]
fn test_get_with_invalid_username() {
    let store = Store::new();
    let now = today().unwrap();
    let res = get_birthday(&store, "foo-bar", &now);
    assert!(res.is_err());
    if let Err(e) = res {
        assert_eq!(e.status, 400);
        assert_eq!(e.message, "Invalid username. Only letters are allowed.");
    }
}

#[test]
fn test_store_failure_maps_to_generic_500() {
    let now = today().unwrap();
    let failure = StoreError {
        message: "connection reset by peer at 10.0.0.1:8000".to_string(),
    };
    let res = get_birthday_outcome("foo", Err(failure), &now);
    assert!(res.is_err());
    if let Err(e) = res {
        assert_eq!(e.status, 500);
        // The client sees a generic message, never the store's detail.
        assert!(!e.message.contains("10.0.0.1"));
        assert_eq!(
            e.message,
            "Ups... This should have never happened. Please contact the developers about this issue."
        );
    }

    let failure = StoreError {
        message: "write timed out".to_string(),
    };
    let res = upsert_outcome(Err(failure));
    assert!(res.is_err());
    if let Err(e) = res {
        assert_eq!(e.status, 500);
    }
    assert!(upsert_outcome(Ok(())).is_ok());
}

#[test]
fn test_get_outcome_found_and_absent() {
    let now = Date::new(2024, 12, 31).unwrap();
    let dob = Date::new(2021, 1, 1).unwrap();
    let res = get_birthday_outcome("foo", Ok(Some(dob)), &now);
    assert_eq!(
        res.ok().unwrap().message,
        "Hello, foo! Your birthday is in 1 day(s)"
    );
    let res = get_birthday_outcome("foo", Ok(None), &now);
    assert_eq!(res.err().unwrap().status, 404);
}

#[test]
fn test_error_constructors() {
    let e = ApiError::internal_server_error();
    assert_eq!(e.status, 500);
    assert_eq!(e.message, "Internal server error");
    let e = ApiError::not_found("User 'x' was not found");
    assert_eq!(e.status, 404);
    let e = ApiError::bad_request("nope");
    assert_eq!(e.status, 400);
    assert_eq!(e.message, "nope");
    let e = ApiError::new(204, "");
    assert_eq!(e.status, 204);
}

#[test]
fn test_request_id_propagated_unchanged() {
    assert_eq!(
        ensure_request_id(Some("abc-123".to_string()), 42),
        "abc-123"
    );
    assert_eq!(ensure_request_id(None, 1234567890123456789), "1234567890123456789");
}

#[test]
fn test_generated_request_id_is_decimal() {
    let id = make_request_id();
    assert!(!id.is_empty());
    assert!(id.len() <= 20);
    assert!(id.chars().all(|c| c.is_ascii_digit()));
}

#[test]
fn test_request_scope_lifecycle() {
    let mut scope = open_scope(
        Some("trace-7".to_string()),
        99,
        "/hello/foo".to_string(),
        "GET".to_string(),
    );
    assert_eq!(scope.request_id, "trace-7");
    assert!(scope.timing);
    assert!(scope.context_set);
    assert!(!scope.counted);

    let labels = record_outcome(&mut scope, 200);
    assert_eq!(labels.endpoint, "/hello/foo");
    assert_eq!(labels.status, "200");
    assert_eq!(labels.method, "GET");
    assert!(scope.counted);
    assert!(scope.observed);
    assert!(!scope.timing);

    let echoed = close_scope(&mut scope);
    assert_eq!(echoed, "trace-7");
    assert!(!scope.context_set);
}

#[test]
fn test_fresh_request_id_when_absent() {
    let mut scope = open_scope(None, 31415, "/hello/bar".to_string(), "PUT".to_string());
    assert_eq!(scope.request_id, "31415");
    let labels = record_outcome(&mut scope, 204);
    assert_eq!(labels.status, "204");
    let echoed = close_scope(&mut scope);
    assert_eq!(echoed, "31415");
}

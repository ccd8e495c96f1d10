//! The endpoint layer: error responses and the two route handlers.
//!
//! Each request passes validation first; only validated values reach the
//! store or the calculator. The handlers here map every failure to a
//! status code and message, so no error leaves the layer unmapped.

use vstd::prelude::*;

use crate::birthday::{describe_spec, GetBirthdayResponse};
use crate::date::{is_date_format, parse_date, Date, MIN_YEAR};
use crate::store::{Store, StoreError};
use crate::validation::{
    acceptable_dob, parsed_date, valid_username, validate_dob, validate_username, ValidationError,
};

verus! {

/// A structured error response: an HTTP status and a client-facing message.
pub struct ApiError {
    pub status: u16,
    pub message: String,
}

/// The outcome of a handler: a response body or a structured error.
pub type ApiResult<T> = Result<T, ApiError>;

impl ApiError {
    /// An error response with the given status and message.
    pub fn new(status: u16, message: &str) -> (r: ApiError)
        ensures
            r.status == status,
            r.message@ == message@,
    {
        ApiError { status, message: String::from_str(message) }
    }

    /// A 400 response.
    pub fn bad_request(message: &str) -> (r: ApiError)
        ensures
            r.status == 400,
            r.message@ == message@,
    {
        ApiError::new(400, message)
    }

    /// A 500 response with a generic message.
    pub fn internal_server_error() -> (r: ApiError)
        ensures
            r.status == 500,
            r.message@ == "Internal server error"@,
    {
        ApiError::new(500, "Internal server error")
    }

    /// A 404 response.
    pub fn not_found(message: &str) -> (r: ApiError)
        ensures
            r.status == 404,
            r.message@ == message@,
    {
        ApiError::new(404, message)
    }
}

/// The client-facing message for each validation failure.
pub open spec fn validation_message(e: ValidationError) -> Seq<char> {
    match e {
        ValidationError::EmptyInput => "Username should not be empty."@,
        ValidationError::InvalidCharacters => "Invalid username. Only letters are allowed."@,
        ValidationError::BadFormat => "Invalid date format. Valid format: YYYY-MM-DD"@,
        ValidationError::UnparsableDate => "Invalid date"@,
        ValidationError::OutOfRange => "Invalid date of birth. The date should be between 1900-01-01 and today."@,
    }
}

/// The 400 response for a validation failure.
pub fn validation_error_response(e: &ValidationError) -> (r: ApiError)
    ensures
        r.status == 400,
        r.message@ == validation_message(*e),
{
    match e {
        ValidationError::EmptyInput => ApiError::bad_request("Username should not be empty."),
        ValidationError::InvalidCharacters => ApiError::bad_request(
            "Invalid username. Only letters are allowed.",
        ),
        ValidationError::BadFormat => ApiError::bad_request(
            "Invalid date format. Valid format: YYYY-MM-DD",
        ),
        ValidationError::UnparsableDate => ApiError::bad_request("Invalid date"),
        ValidationError::OutOfRange => ApiError::bad_request(
            "Invalid date of birth. The date should be between 1900-01-01 and today.",
        ),
    }
}

/// The generic message for an unexpected upstream failure; it carries no
/// internal detail.
pub open spec fn unexpected_error_message() -> Seq<char> {
    "Ups... This should have never happened. Please contact the developers about this issue."@
}

/// The 500 response for a storage failure. The failure itself is not
/// inspected and nothing of it reaches the client.
pub fn store_failure_response(_e: &StoreError) -> (r: ApiError)
    ensures
        r.status == 500,
        r.message@ == unexpected_error_message(),
{
    ApiError::new(
        500,
        "Ups... This should have never happened. Please contact the developers about this issue.",
    )
}

/// The body of a `PUT /hello/{username}` request, as handed over by the
/// HTTP boundary.
pub struct UserBirthdayRequest {
    pub date_of_birth: String,
}

impl UserBirthdayRequest {
    /// Parse the date-of-birth field as a `YYYY-MM-DD` calendar date.
    pub fn dob(&self) -> (r: Option<Date>)
        ensures
            r matches Some(d) ==> d.wf() && is_date_format(self.date_of_birth@) && d
                == parsed_date(self.date_of_birth@),
            r is None ==> !(is_date_format(self.date_of_birth@) && crate::date::valid_ymd(
                crate::date::parsed_year(self.date_of_birth@),
                crate::date::parsed_month(self.date_of_birth@),
                crate::date::parsed_day(self.date_of_birth@),
            )),
    {
        parse_date(self.date_of_birth.as_str())
    }
}

/// The empty body of a successful upsert (204 No Content).
pub struct UserBirthdayResponse();

/// The message a validation failure of the date-of-birth field produces.
pub open spec fn expected_dob_error(s: Seq<char>, now: Date) -> Seq<char> {
    if !is_date_format(s) {
        validation_message(ValidationError::BadFormat)
    } else if !crate::date::valid_ymd(
        crate::date::parsed_year(s),
        crate::date::parsed_month(s),
        crate::date::parsed_day(s),
    ) {
        validation_message(ValidationError::UnparsableDate)
    } else {
        validation_message(ValidationError::OutOfRange)
    }
}

/// Validate the date-of-birth field of an upsert request against `now`,
/// mapping each failure to its client-facing 400 response.
pub fn validate_birthday_request(req: &UserBirthdayRequest, now: &Date) -> (r: Result<
    Date,
    ApiError,
>)
    requires
        now.wf(),
    ensures
        match r {
            Ok(d) => {
                &&& acceptable_dob(req.date_of_birth@, *now)
                &&& d == parsed_date(req.date_of_birth@)
                &&& d.wf()
            },
            Err(e) => {
                &&& !acceptable_dob(req.date_of_birth@, *now)
                &&& e.status == 400
                &&& e.message@ == expected_dob_error(req.date_of_birth@, *now)
            },
        },
{
    match validate_dob(req.date_of_birth.as_str(), now) {
        Ok(d) => Ok(d),
        Err(e) => Err(validation_error_response(&e)),
    }
}

/// The message a username failure produces.
pub open spec fn expected_username_error(u: Seq<char>) -> Seq<char> {
    if u.len() == 0 {
        validation_message(ValidationError::EmptyInput)
    } else {
        validation_message(ValidationError::InvalidCharacters)
    }
}

/// Handle `PUT /hello/{username}`: validate the username and the date of
/// birth, then store the record, creating or overwriting it.
pub fn upsert_user(store: &mut Store, username: &str, req: &UserBirthdayRequest, now: &Date) -> (r:
    ApiResult<UserBirthdayResponse>)
    requires
        old(store).wf(),
        now.wf(),
    ensures
        final(store).wf(),
        match r {
            Ok(_) => {
                &&& valid_username(username@)
                &&& acceptable_dob(req.date_of_birth@, *now)
                &&& final(store)@ == old(store)@.insert(
                    username@,
                    parsed_date(req.date_of_birth@),
                )
            },
            Err(e) => {
                &&& final(store)@ == old(store)@
                &&& e.status == 400
                &&& !(valid_username(username@) && acceptable_dob(req.date_of_birth@, *now))
                &&& e.message@ == (if !valid_username(username@) {
                    expected_username_error(username@)
                } else {
                    expected_dob_error(req.date_of_birth@, *now)
                })
            },
        },
{
    let validated = match validate_username(username) {
        Ok(v) => v,
        Err(e) => {
            return Err(validation_error_response(&e));
        },
    };
    let dob = match validate_birthday_request(req, now) {
        Ok(d) => d,
        Err(e) => {
            return Err(e);
        },
    };
    store.upsert_birthday(validated.0, dob);
    Ok(UserBirthdayResponse())
}

/// The 404 message for an unknown username; it names the username.
pub open spec fn not_found_message(u: Seq<char>) -> Seq<char> {
    "User '"@ + u + "' was not found"@
}

/// Handle `GET /hello/{username}`: validate the username, look the record
/// up, and answer with the birthday message, a 404 naming the user, or a
/// 400 for a bad username.
pub fn get_birthday(store: &Store, username: &str, now: &Date) -> (r: ApiResult<
    GetBirthdayResponse,
>)
    requires
        store.wf(),
        now.wf(),
        MIN_YEAR <= now.year,
    ensures
        match r {
            Ok(resp) => {
                &&& valid_username(username@)
                &&& store@.contains_key(username@)
                &&& resp.message@ == describe_spec(username@, store@[username@], *now)
            },
            Err(e) => {
                if !valid_username(username@) {
                    &&& e.status == 400
                    &&& e.message@ == expected_username_error(username@)
                } else {
                    &&& !store@.contains_key(username@)
                    &&& e.status == 404
                    &&& e.message@ == not_found_message(username@)
                }
            },
        },
{
    let validated = match validate_username(username) {
        Ok(v) => v,
        Err(e) => {
            return Err(validation_error_response(&e));
        },
    };
    match store.get_birthday(username) {
        Some(dob) => {
            let resp = GetBirthdayResponse::new(username, &dob, now);
            Ok(resp)
        },
        None => {
            let mut msg = String::from_str("User '");
            msg.append(username);
            msg.append("' was not found");
            proof {
                assert(msg@ =~= not_found_message(username@));
            }
            Err(ApiError::not_found(msg.as_str()))
        },
    }
}

/// Map the outcome of a storage read for `username` to the route's
/// response: the birthday message for a found record, a 404 naming the
/// user for an absent one, and a generic 500 for a storage failure,
/// whatever that failure was.
pub fn get_birthday_outcome(username: &str, outcome: Result<Option<Date>, StoreError>, now: &Date)
    -> (r: ApiResult<GetBirthdayResponse>)
    requires
        now.wf(),
        MIN_YEAR <= now.year,
        outcome matches Ok(Some(d)) ==> d.wf(),
    ensures
        match outcome {
            Ok(Some(d)) => r matches Ok(resp) && resp.message@ == describe_spec(
                username@,
                d,
                *now,
            ),
            Ok(None) => r matches Err(e) && e.status == 404 && e.message@ == not_found_message(
                username@,
            ),
            Err(_) => r matches Err(e) && e.status == 500 && e.message@
                == unexpected_error_message(),
        },
{
    match outcome {
        Ok(Some(dob)) => Ok(GetBirthdayResponse::new(username, &dob, now)),
        Ok(None) => {
            let mut msg = String::from_str("User '");
            msg.append(username);
            msg.append("' was not found");
            proof {
                assert(msg@ =~= not_found_message(username@));
            }
            Err(ApiError::not_found(msg.as_str()))
        },
        Err(e) => Err(store_failure_response(&e)),
    }
}

/// Map the outcome of a storage write to the route's response: no content
/// on success, a generic 500 on a storage failure, whatever that failure
/// was.
pub fn upsert_outcome(outcome: Result<(), StoreError>) -> (r: ApiResult<UserBirthdayResponse>)
    ensures
        match outcome {
            Ok(_) => r is Ok,
            Err(_) => r matches Err(e) && e.status == 500 && e.message@
                == unexpected_error_message(),
        },
{
    match outcome {
        Ok(_) => Ok(UserBirthdayResponse()),
        Err(e) => Err(store_failure_response(&e)),
    }
}

} // verus!

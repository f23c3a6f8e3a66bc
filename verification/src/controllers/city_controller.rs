//! The four actions on cities. Each action has two halves: one turns the
//! request into a statement, the other turns the outcome of running that
//! statement into an answer. Running it is the caller's part.

use crate::models::city::City;
use crate::repositories::bind_value::{BindValue, BindValueView};
use crate::requests::request_city::CityRequest;
use crate::resources::city_resource::CityResource;
use crate::services::generic_query::{
    generic_delete, generic_insert, generic_list, generic_update, spec_generic_delete,
    spec_generic_insert, spec_generic_list, spec_generic_update,
};
use crate::services::statement::Statement;
use vstd::prelude::*;

verus! {

/// The status code of an answer that carries what was asked for.
pub const OK: u16 = 200;

/// The status code of an answer that carries a newly stored record.
pub const CREATED: u16 = 201;

/// The status code of an answer to a request for a record that is not
/// there.
pub const NOT_FOUND: u16 = 404;

/// The status code of an answer to a request that failed in the storage.
pub const INTERNAL_SERVER_ERROR: u16 = 500;

/// The body of an answer.
#[derive(Debug, PartialEq, Eq)]
pub enum Envelope<T> {
    /// The request succeeded; the data is what it asked for.
    Success(T),
    /// The request failed; the text says why.
    Error(String),
}

impl<T> Envelope<T> {
    /// The word that tells the two kinds of body apart.
    pub open spec fn spec_status(&self) -> Seq<char> {
        match self {
            Envelope::Success(_) => "success"@,
            Envelope::Error(_) => "error"@,
        }
    }

    /// The word that tells the two kinds of body apart: `success` or
    /// `error`.
    pub fn status(&self) -> (word: &'static str)
        ensures
            word@ == self.spec_status(),
    {
        match self {
            Envelope::Success(_) => "success",
            Envelope::Error(_) => "error",
        }
    }
}

/// An answer: a status code and a body.
#[derive(Debug, PartialEq, Eq)]
pub struct Reply<T> {
    pub status: u16,
    pub body: Envelope<T>,
}

/// The answer to an outcome whose failure is already a message:
/// `success` with the data where there is data, `failure` with the
/// message where there is none.
pub open spec fn spec_reply<T>(outcome: Result<T, String>, success: u16, failure: u16) -> Reply<
    T,
> {
    match outcome {
        Ok(data) => Reply { status: success, body: Envelope::Success(data) },
        Err(message) => Reply { status: failure, body: Envelope::Error(message) },
    }
}

/// Answers an outcome whose failure is already a message.
pub fn reply<T>(outcome: Result<T, String>, success: u16, failure: u16) -> (reply: Reply<T>)
    ensures
        reply == spec_reply(outcome, success, failure),
{
    match outcome {
        Ok(data) => Reply { status: success, body: Envelope::Success(data) },
        Err(message) => Reply { status: failure, body: Envelope::Error(message) },
    }
}

/// The error of a failed execution, as sqlx reports it.
#[verifier::external_type_specification]
#[verifier::external_body]
pub struct ExError(sqlx::Error);

/// Whether `message` is the text in which sqlx describes `error`: what
/// `to_string` gives for it.
pub open spec fn describes(error: sqlx::Error, message: String) -> bool {
    vstd::string::to_string_from_display_ensures::<sqlx::Error>(&error, message)
}

/// Whether an error is sqlx's `RowNotFound`: a statement that expects
/// one row found none.
pub uninterp spec fn spec_is_no_row(error: sqlx::Error) -> bool;

/// Tells the variant `RowNotFound` of `sqlx::Error` from all its other
/// variants. The contract claims only that the answer depends on the
/// error alone, and gives it the name `spec_is_no_row`.
#[verifier::external_body]
fn is_no_row(error: &sqlx::Error) -> (no_row: bool)
    ensures
        no_row == spec_is_no_row(*error),
{
    matches!(error, sqlx::Error::RowNotFound)
}

/// Whether `reply` answers the outcome of an execution: `success` with
/// the data where there is data, `failure` with the text in which sqlx
/// describes the error where the execution failed.
pub open spec fn answers<T>(
    reply: Reply<T>,
    outcome: Result<T, sqlx::Error>,
    success: u16,
    failure: u16,
) -> bool {
    match outcome {
        Ok(data) => reply == Reply { status: success, body: Envelope::Success(data) },
        Err(error) => {
            &&& reply.status == failure
            &&& reply.body is Error
            &&& describes(error, reply.body->Error_0)
        },
    }
}

/// Answers the outcome of an execution. A failure is answered with the
/// text in which sqlx describes it, whatever kind of failure it is.
fn reply_to<T>(outcome: Result<T, sqlx::Error>, success: u16, failure: u16) -> (reply: Reply<T>)
    ensures
        answers(reply, outcome, success, failure),
{
    match outcome {
        Ok(data) => self::reply(Ok(data), success, failure),
        Err(error) => self::reply(Err(error.to_string()), success, failure),
    }
}

/// The statement that lists the cities selected by `filter`, newest
/// identifier first.
pub fn list_cities(filter: CityResource) -> (statement: Statement)
    ensures
        statement@ == spec_generic_list(filter, Some(("id"@, "DESC"@))),
{
    generic_list(filter, Some(("id", "DESC")))
}

/// Answers a listing: the cities with `OK`, a failed execution with
/// `INTERNAL_SERVER_ERROR` and the text of its error.
pub fn list_cities_reply(outcome: Result<Vec<City>, sqlx::Error>) -> (reply: Reply<Vec<City>>)
    ensures
        answers(reply, outcome, OK, INTERNAL_SERVER_ERROR),
{
    reply_to(outcome, OK, INTERNAL_SERVER_ERROR)
}

/// The city that a payload describes, under the identifier `id`.
pub open spec fn spec_city(id: i64, body: CityRequest) -> City {
    City { id, name: body.name, region: body.region }
}

/// The statement that stores the city described by `body`. The city goes
/// in with the identifier zero; the storage assigns the real one.
pub fn create_city(body: CityRequest) -> (statement: Statement)
    ensures
        statement@ == spec_generic_insert(spec_city(0, body)),
{
    let city = City { id: 0, name: body.name, region: body.region };
    generic_insert(city)
}

/// Answers a creation: the stored city with `CREATED`, a failed
/// execution with `INTERNAL_SERVER_ERROR` and the text of its error.
pub fn create_city_reply(outcome: Result<City, sqlx::Error>) -> (reply: Reply<City>)
    ensures
        answers(reply, outcome, CREATED, INTERNAL_SERVER_ERROR),
{
    reply_to(outcome, CREATED, INTERNAL_SERVER_ERROR)
}

/// The statement that gives the city `id` the fields of `body`.
pub fn update_city(id: i64, body: CityRequest) -> (statement: Statement)
    ensures
        statement@ == spec_generic_update(spec_city(id, body)),
{
    let city = City { id, name: body.name, region: body.region };
    generic_update(city)
}

/// The answer to a failed update: `NOT_FOUND` where no row has the
/// identifier, `INTERNAL_SERVER_ERROR` for every other failure, both
/// with the message.
pub open spec fn spec_update_failure(no_row: bool, message: String) -> Reply<City> {
    Reply {
        status: if no_row {
            NOT_FOUND
        } else {
            INTERNAL_SERVER_ERROR
        },
        body: Envelope::Error(message),
    }
}

/// Answers a failed update, given whether it failed for want of a row
/// and the message of the failure.
pub fn update_failure(no_row: bool, message: String) -> (reply: Reply<City>)
    ensures
        reply == spec_update_failure(no_row, message),
{
    let status = if no_row {
        NOT_FOUND
    } else {
        INTERNAL_SERVER_ERROR
    };
    Reply { status, body: Envelope::Error(message) }
}

/// Whether `reply` answers the outcome of an update: the stored city
/// with `OK`; an error with the text in which sqlx describes it, under
/// `NOT_FOUND` where the error is that no row has the identifier and
/// under `INTERNAL_SERVER_ERROR` otherwise.
pub open spec fn answers_update(reply: Reply<City>, outcome: Result<City, sqlx::Error>) -> bool {
    match outcome {
        Ok(city) => reply == Reply { status: OK, body: Envelope::Success(city) },
        Err(error) => {
            &&& reply.body is Error
            &&& describes(error, reply.body->Error_0)
            &&& reply == spec_update_failure(spec_is_no_row(error), reply.body->Error_0)
        },
    }
}

/// Answers an update: the stored city with `OK`, an update of a city
/// that is not there with `NOT_FOUND`, every other failed execution
/// with `INTERNAL_SERVER_ERROR`.
pub fn update_city_reply(outcome: Result<City, sqlx::Error>) -> (reply: Reply<City>)
    ensures
        answers_update(reply, outcome),
{
    match outcome {
        Ok(city) => reply(Ok(city), OK, INTERNAL_SERVER_ERROR),
        Err(error) => {
            let no_row = is_no_row(&error);
            update_failure(no_row, error.to_string())
        },
    }
}

/// The statement that deletes the city `id`.
pub fn delete_city(id: i64) -> (statement: Statement)
    ensures
        statement@ == spec_generic_delete::<City>(BindValueView::Integer(id as int)),
{
    generic_delete::<City>(BindValue::Integer(id))
}

/// Answers a deletion: the deleted city with `OK`, a failed execution
/// with `NOT_FOUND` and the text of its error, whatever made it fail.
pub fn delete_city_reply(outcome: Result<City, sqlx::Error>) -> (reply: Reply<City>)
    ensures
        answers(reply, outcome, OK, NOT_FOUND),
{
    reply_to(outcome, OK, NOT_FOUND)
}

} // verus!

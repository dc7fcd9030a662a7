//! From a status and a body to a typed value or exactly one kind of error.
//!
//! A failure status with an error envelope in the body is an API error
//! under that status; a failure status with any other body is an unexpected
//! response. A success status with a body that holds the expected record
//! gives that record; with any other body it is a parse error. Both of the
//! last two keep the body as it was received.

use vstd::prelude::*;
use crate::decode::FromJson;
use crate::envelope::result_view;
use crate::error::{AbacatePayError, ErrorResponse, ErrorResponseView, ErrorView};
use crate::http::{is_success, status_is_success};
use crate::json::{json_view, parsed_json, JsonValue};

verus! {

/// What a parse error says of a body that is JSON but not the expected
/// record.
pub open spec fn mismatch_message() -> Seq<char> {
    "the response does not have the expected shape"@
}

/// The outcome of a parse as a mathematical value.
pub open spec fn parse_view(parsed: Result<serde_json::Value, String>) -> Result<
    JsonValue,
    Seq<char>,
> {
    match parsed {
        Ok(value) => Ok(json_view(value)),
        Err(message) => Err(message@),
    }
}

/// The result for an answer with status `status` and body `body`, where
/// `parsed` is what the JSON parser made of the body.
pub open spec fn classified<T: FromJson>(
    status: u16,
    body: Seq<char>,
    parsed: Result<JsonValue, Seq<char>>,
) -> Result<T::V, ErrorView> {
    if !status_is_success(status) {
        if parsed is Ok && ErrorResponse::decoded(parsed->Ok_0) is Some {
            Err(ErrorResponse::decoded(parsed->Ok_0)->Some_0.reported(status))
        } else {
            Err(ErrorView::UnexpectedResponse { status, response: body })
        }
    } else {
        match parsed {
            Ok(document) => match T::decoded(document) {
                Some(t) => Ok(t),
                None => Err(ErrorView::ParseError { message: mismatch_message(), response: body }),
            },
            Err(message) => Err(ErrorView::ParseError { message, response: body }),
        }
    }
}

/// The result for an answer with status `status` and body `body`.
pub open spec fn resolved<T: FromJson>(status: u16, body: Seq<char>) -> Result<T::V, ErrorView> {
    classified::<T>(status, body, parsed_json(body))
}

/// Decides the result for an answer whose body has been through the JSON
/// parser already.
pub fn classify<T: FromJson>(
    status: u16,
    body: String,
    parsed: Result<serde_json::Value, String>,
) -> (r: Result<T, AbacatePayError>)
    ensures
        result_view(r) == classified::<T>(status, body@, parse_view(parsed)),
{
    if !is_success(status) {
        match parsed {
            Ok(value) => match ErrorResponse::from_json(&value) {
                Some(envelope) => Err(envelope.into_error(status)),
                None => Err(AbacatePayError::UnexpectedResponse { status, response: body }),
            },
            Err(_) => Err(AbacatePayError::UnexpectedResponse { status, response: body }),
        }
    } else {
        match parsed {
            Ok(value) => match T::from_json(&value) {
                Some(t) => Ok(t),
                None => Err(
                    AbacatePayError::ParseError {
                        message: "the response does not have the expected shape".to_owned(),
                        response: body,
                    },
                ),
            },
            Err(message) => Err(AbacatePayError::ParseError { message, response: body }),
        }
    }
}

/// A success status with a body that holds a `T` resolves to that `T`,
/// whatever else the body holds.
pub proof fn lemma_success_gives_the_record<T: FromJson>(
    status: u16,
    body: Seq<char>,
    document: JsonValue,
    record: T::V,
)
    requires
        status_is_success(status),
        parsed_json(body) == Ok::<JsonValue, Seq<char>>(document),
        T::decoded(document) == Some(record),
    ensures
        resolved::<T>(status, body) == Ok::<T::V, ErrorView>(record),
{
}

/// A failure status with an error envelope in the body resolves to the API
/// error with the envelope's three texts and the very status that came in.
pub proof fn lemma_failure_reports_its_status<T: FromJson>(
    status: u16,
    body: Seq<char>,
    document: JsonValue,
    envelope: ErrorResponseView,
)
    requires
        !status_is_success(status),
        parsed_json(body) == Ok::<JsonValue, Seq<char>>(document),
        ErrorResponse::decoded(document) == Some(envelope),
    ensures
        resolved::<T>(status, body) == Err::<T::V, ErrorView>(
            ErrorView::ApiError {
                status,
                error: envelope.error,
                message: envelope.message,
                code: envelope.code,
            },
        ),
{
}

/// A failure status with a body that is no error envelope, be it no JSON at
/// all, resolves to an unexpected response with that status and that body.
pub proof fn lemma_failure_keeps_the_body<T: FromJson>(status: u16, body: Seq<char>)
    requires
        !status_is_success(status),
        parsed_json(body) is Err || ErrorResponse::decoded(parsed_json(body)->Ok_0) is None,
    ensures
        resolved::<T>(status, body) == Err::<T::V, ErrorView>(
            ErrorView::UnexpectedResponse { status, response: body },
        ),
{
}

/// A success status with a body that is no JSON, or JSON that holds no `T`,
/// resolves to a parse error that keeps the body as it was received.
pub proof fn lemma_unreadable_success_keeps_the_body<T: FromJson>(status: u16, body: Seq<char>)
    requires
        status_is_success(status),
        parsed_json(body) is Err || T::decoded(parsed_json(body)->Ok_0) is None,
    ensures
        resolved::<T>(status, body) matches Err(ErrorView::ParseError { response, .. })
            && response == body,
        parsed_json(body) matches Err(complaint) ==> resolved::<T>(status, body) == Err::<
            T::V,
            ErrorView,
        >(ErrorView::ParseError { message: complaint, response: body }),
{
}

/// Every answer resolves to a value or to exactly one of three kinds of
/// error, and which one depends on the status alone as far as the split
/// between them goes: a failure status never gives a value or a parse
/// error, a success status never gives an API error or an unexpected
/// response.
pub proof fn lemma_status_decides_the_kind<T: FromJson>(status: u16, body: Seq<char>)
    ensures
        !status_is_success(status) ==> (resolved::<T>(status, body) matches Err(e) && (e
            is ApiError || e is UnexpectedResponse)),
        status_is_success(status) ==> (resolved::<T>(status, body) is Ok || (resolved::<T>(
            status,
            body,
        ) matches Err(e) && e is ParseError)),
{
}

} // verus!

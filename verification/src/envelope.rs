//! The wrapper around every answer of the API.
//!
//! An answer carries no tag that says whether it reports success or failure:
//! which one it is shows only in the members it has. A success has its
//! payload under the operation's key and no `error` member (or a null one);
//! a failure has a string under `error`. The two shapes exclude each other.
//! A document is read as a success first and as a failure only when that
//! does not fit.

use vstd::prelude::*;
use crate::decode::{field, reports_no_error, FromJson};
use crate::error::{AbacatePayError, ErrorResponse, ErrorResponseView, ErrorView};
use crate::json::{json_view, JsonValue};

verus! {

/// An answer as a mathematical value: the payload, or the error envelope.
pub enum EnvelopeView<P> {
    Success(P),
    Error(ErrorResponseView),
}

/// Whether `document` has the shape of a success that keeps a `P` under
/// `key`.
pub open spec fn is_success_shape<P: FromJson>(document: JsonValue, key: Seq<char>) -> bool {
    document.error_free() && document.decoded_at::<P>(key) is Some
}

/// Whether `document` has the shape of a failure.
pub open spec fn is_failure_shape(document: JsonValue) -> bool {
    ErrorResponse::decoded(document) is Some
}

/// The answer that `document` denotes for an operation whose payload is a
/// `P` under `key`.
pub open spec fn envelope_of<P: FromJson>(document: JsonValue, key: Seq<char>) -> Option<
    EnvelopeView<P::V>,
> {
    if is_success_shape::<P>(document, key) {
        Some(EnvelopeView::Success(document.decoded_at::<P>(key)->Some_0))
    } else if is_failure_shape(document) {
        Some(EnvelopeView::Error(ErrorResponse::decoded(document)->Some_0))
    } else {
        None
    }
}

impl<P> EnvelopeView<P> {
    /// What the caller gets from this answer when it came with the HTTP
    /// status `status`.
    pub open spec fn outcome(self, status: u16) -> Result<P, ErrorView> {
        match self {
            EnvelopeView::Success(payload) => Ok(payload),
            EnvelopeView::Error(envelope) => Err(envelope.reported(status)),
        }
    }
}

/// A result of the library as a mathematical value.
pub open spec fn result_view<T: DeepView>(r: Result<T, AbacatePayError>) -> Result<T::V, ErrorView> {
    match r {
        Ok(t) => Ok(t.deep_view()),
        Err(e) => Err(e.deep_view()),
    }
}

/// An answer read by `read_envelope`, as a mathematical value.
pub open spec fn reading_view<P: DeepView>(r: Option<Result<P, ErrorResponse>>) -> Option<
    EnvelopeView<P::V>,
> {
    match r {
        Some(Ok(payload)) => Some(EnvelopeView::Success(payload.deep_view())),
        Some(Err(envelope)) => Some(EnvelopeView::Error(envelope.deep_view())),
        None => None,
    }
}

/// Reads an answer whose payload is a `P` under `key`: `Ok` with the payload
/// for a success, `Err` with the envelope for a failure, nothing for a
/// document that is neither.
pub fn read_envelope<P: FromJson>(value: &serde_json::Value, key: &str) -> (r: Option<
    Result<P, ErrorResponse>,
>)
    ensures
        reading_view(r) == envelope_of::<P>(json_view(*value), key@),
{
    if reports_no_error(value) {
        match field::<P>(value, key) {
            Some(payload) => {
                return Some(Ok(payload));
            },
            None => {},
        }
    }
    match ErrorResponse::from_json(value) {
        Some(envelope) => Some(Err(envelope)),
        None => None,
    }
}

/// No document is a success and a failure at once.
pub proof fn lemma_shapes_exclusive<P: FromJson>(document: JsonValue, key: Seq<char>)
    ensures
        !(is_success_shape::<P>(document, key) && is_failure_shape(document)),
{
}

/// An object with nothing but a payload that reads as a `P`, under a key
/// other than `error`, is a success with that payload.
pub proof fn lemma_wrapped_payload_is_a_success<P: FromJson>(
    key: Seq<char>,
    payload: JsonValue,
    value: P::V,
)
    requires
        key != "error"@,
        P::decoded(payload) == Some(value),
    ensures
        envelope_of::<P>(JsonValue::Record(Map::empty().insert(key, payload)), key) == Some(
            EnvelopeView::Success(value),
        ),
{
}

/// A document whose `error` member is a string is a failure with that
/// string, whatever payload it may hold besides.
pub proof fn lemma_error_text_is_a_failure<P: FromJson>(document: JsonValue, key: Seq<char>)
    requires
        is_failure_shape(document),
    ensures
        envelope_of::<P>(document, key) matches Some(EnvelopeView::Error(envelope))
            && document.text_at("error"@) == Some(envelope.error),
{
}

} // verus!

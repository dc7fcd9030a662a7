//! The kinds of failure that an operation can end in, and the error envelope
//! that the API wraps its own complaints in.

use vstd::prelude::*;
use crate::decode::{optional_text_field, text_field, FromJson};
use crate::json::JsonValue;

verus! {

/// How an operation failed. Every failure is exactly one of these.
#[derive(Debug, Clone, PartialEq, Eq)]
pub enum AbacatePayError {
    /// Sending or receiving failed before any HTTP response was obtained.
    /// Holds the transport's description of the cause.
    RequestError(String),
    /// The server answered with an error envelope. `status` is the HTTP
    /// status that the answer really had.
    ApiError { status: u16, error: String, message: String, code: String },
    /// The HTTP status was a success but the body did not hold the expected
    /// record. `response` is the body as received.
    ParseError { message: String, response: String },
    /// The HTTP status was a failure and the body was no error envelope.
    /// `response` is the body as received.
    UnexpectedResponse { status: u16, response: String },
}

/// `AbacatePayError` as a mathematical value.
pub enum ErrorView {
    RequestError(Seq<char>),
    ApiError { status: u16, error: Seq<char>, message: Seq<char>, code: Seq<char> },
    ParseError { message: Seq<char>, response: Seq<char> },
    UnexpectedResponse { status: u16, response: Seq<char> },
}

impl DeepView for AbacatePayError {
    type V = ErrorView;

    open spec fn deep_view(&self) -> ErrorView {
        match self {
            AbacatePayError::RequestError(cause) => ErrorView::RequestError(cause@),
            AbacatePayError::ApiError { status, error, message, code } => ErrorView::ApiError {
                status: *status,
                error: error@,
                message: message@,
                code: code@,
            },
            AbacatePayError::ParseError { message, response } => ErrorView::ParseError {
                message: message@,
                response: response@,
            },
            AbacatePayError::UnexpectedResponse { status, response } => {
                ErrorView::UnexpectedResponse { status: *status, response: response@ }
            },
        }
    }
}

/// The error envelope: an object whose `error` member is a string. `message`
/// and `code` are strings too where the server sends them, and empty where
/// it leaves them out.
#[derive(Debug, Clone, PartialEq, Eq)]
pub struct ErrorResponse {
    pub error: String,
    pub message: String,
    pub code: String,
}

pub struct ErrorResponseView {
    pub error: Seq<char>,
    pub message: Seq<char>,
    pub code: Seq<char>,
}

impl DeepView for ErrorResponse {
    type V = ErrorResponseView;

    open spec fn deep_view(&self) -> ErrorResponseView {
        ErrorResponseView { error: self.error@, message: self.message@, code: self.code@ }
    }
}

/// The text that an optional member stands for: itself, or nothing.
pub open spec fn text_or_empty(text: Option<Seq<char>>) -> Seq<char> {
    match text {
        Some(t) => t,
        None => Seq::empty(),
    }
}

impl ErrorResponseView {
    /// The API error that this envelope reports under the HTTP status
    /// `status`.
    pub open spec fn reported(self, status: u16) -> ErrorView {
        ErrorView::ApiError { status, error: self.error, message: self.message, code: self.code }
    }
}

impl ErrorResponse {
    /// Turns the envelope into the error it reports, keeping the HTTP status
    /// that came with it.
    pub fn into_error(self, status: u16) -> (r: AbacatePayError)
        ensures
            r.deep_view() == self.deep_view().reported(status),
    {
        AbacatePayError::ApiError {
            status,
            error: self.error,
            message: self.message,
            code: self.code,
        }
    }
}

impl FromJson for ErrorResponse {
    open spec fn decoded(document: JsonValue) -> Option<ErrorResponseView> {
        if document.text_at("error"@) is Some && document.optional_text_at("message"@) is Some
            && document.optional_text_at("code"@) is Some {
            Some(
                ErrorResponseView {
                    error: document.text_at("error"@)->Some_0,
                    message: text_or_empty(document.optional_text_at("message"@)->Some_0),
                    code: text_or_empty(document.optional_text_at("code"@)->Some_0),
                },
            )
        } else {
            None
        }
    }

    fn from_json(value: &serde_json::Value) -> (r: Option<Self>) {
        let error = text_field(value, "error")?;
        let message = match optional_text_field(value, "message")? {
            Some(text) => text,
            None => String::new(),
        };
        let code = match optional_text_field(value, "code")? {
            Some(text) => text,
            None => String::new(),
        };
        Some(ErrorResponse { error, message, code })
    }
}

} // verus!

//! Requests and exchanges as plain values. The library says what is to be
//! sent and what an answer means; sending is the caller's business.

use vstd::prelude::*;

verus! {

/// The HTTP methods that the API is called with.
#[derive(Debug, Clone, Copy, PartialEq, Eq, Structural)]
pub enum Method {
    Get,
    Post,
}

/// A request, ready to be sent as it stands.
#[derive(Debug, Clone, PartialEq, Eq)]
pub struct HttpRequest {
    pub method: Method,
    pub url: String,
    /// Header names and values, in the order in which they are to be set.
    pub headers: Vec<(String, String)>,
    /// Query parameters, names and values, not yet percent-encoded.
    pub query: Vec<(String, String)>,
    /// The JSON text of the body, where the request has one.
    pub body: Option<String>,
}

pub struct HttpRequestView {
    pub method: Method,
    pub url: Seq<char>,
    pub headers: Seq<(Seq<char>, Seq<char>)>,
    pub query: Seq<(Seq<char>, Seq<char>)>,
    pub body: Option<Seq<char>>,
}

impl DeepView for HttpRequest {
    type V = HttpRequestView;

    open spec fn deep_view(&self) -> HttpRequestView {
        HttpRequestView {
            method: self.method,
            url: self.url@,
            headers: self.headers.deep_view(),
            query: self.query.deep_view(),
            body: self.body.deep_view(),
        }
    }
}

/// How sending a request ended.
#[derive(Debug, Clone, PartialEq, Eq)]
pub enum Exchange {
    /// No HTTP response was obtained; `cause` is the transport's account of
    /// why.
    Failed { cause: String },
    /// The server answered with this status and body.
    Answered { status: u16, body: String },
}

pub enum ExchangeView {
    Failed { cause: Seq<char> },
    Answered { status: u16, body: Seq<char> },
}

impl DeepView for Exchange {
    type V = ExchangeView;

    open spec fn deep_view(&self) -> ExchangeView {
        match self {
            Exchange::Failed { cause } => ExchangeView::Failed { cause: cause@ },
            Exchange::Answered { status, body } => ExchangeView::Answered {
                status: *status,
                body: body@,
            },
        }
    }
}

/// Whether an HTTP status reports success: the codes from 200 to 299.
pub open spec fn status_is_success(status: u16) -> bool {
    200 <= status <= 299
}

/// Whether an HTTP status reports success.
pub fn is_success(status: u16) -> (r: bool)
    ensures
        r == status_is_success(status),
{
    200 <= status && status <= 299
}

} // verus!

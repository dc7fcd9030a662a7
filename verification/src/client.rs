//! The client: the credentials and the endpoint, the request for each
//! operation, and the reading of each answer.

use vstd::prelude::*;
use vstd::string::StringExecFns;
use crate::builders::{
    BillingBuilder, CheckPixStatusBuilder, PixChargeBuilder, SimulatePixPaymentBuilder,
};
use crate::decode::FromJson;
use crate::encode::{lemma_charge_round_trip, ToJson};
use crate::envelope::{lemma_wrapped_payload_is_a_success, result_view, EnvelopeView};
use crate::error::{AbacatePayError, ErrorResponseView, ErrorView};
use crate::http::{
    status_is_success, Exchange, ExchangeView, HttpRequest, HttpRequestView, Method,
};
use crate::json::{parse, parsed_json, JsonValue};
use crate::models::pix_charge::{
    CreatePixChargeData, PixChargeData, PixChargeDataView, PixChargeResponse,
};
use crate::models::{Billing, BillingKind, BillingView, CreateBillingData, ListBillingResponse};
use crate::resolver::{classify, resolved};

verus! {

/// A client of the API. It keeps the bearer token and the base address, and
/// neither changes once the client is made.
pub struct AbacatePay {
    api_key: String,
    base_url: String,
}

/// `AbacatePay` as a mathematical value.
pub struct ClientView {
    pub api_key: Seq<char>,
    pub base_url: Seq<char>,
}

impl DeepView for AbacatePay {
    type V = ClientView;

    closed spec fn deep_view(&self) -> ClientView {
        ClientView { api_key: self.api_key@, base_url: self.base_url@ }
    }
}

/// How the client names itself to the server.
pub open spec fn user_agent() -> Seq<char> {
    "Rust SDK 0.1.0"@
}

/// The headers of every request: the bearer authorization made from the
/// token, and the client's name.
pub open spec fn plain_headers(api_key: Seq<char>) -> Seq<(Seq<char>, Seq<char>)> {
    seq![("Authorization"@, "Bearer "@ + api_key), ("User-Agent"@, user_agent())]
}

/// The headers of a request with a JSON body.
pub open spec fn json_headers(api_key: Seq<char>) -> Seq<(Seq<char>, Seq<char>)> {
    plain_headers(api_key).push(("Content-Type"@, "application/json"@))
}

/// The one query parameter of the operations that name a charge.
pub open spec fn id_query(id: Seq<char>) -> Seq<(Seq<char>, Seq<char>)> {
    seq![("id"@, id)]
}

impl ClientView {
    /// The request that this client sends to `path` under its base address.
    pub open spec fn request(
        self,
        method: Method,
        path: Seq<char>,
        query: Seq<(Seq<char>, Seq<char>)>,
        body: Option<Seq<char>>,
    ) -> HttpRequestView {
        HttpRequestView {
            method,
            url: self.base_url + path,
            headers: if body is Some {
                json_headers(self.api_key)
            } else {
                plain_headers(self.api_key)
            },
            query,
            body,
        }
    }
}

/// What the caller gets once an exchange is over, for an operation whose
/// answer is read as a `T` and whose payload is a `P`: the transport's
/// failure as a request error, or what the answer resolves to.
pub open spec fn concluded<T: FromJson + DeepView<V = EnvelopeView<P>>, P>(
    exchange: ExchangeView,
) -> Result<P, ErrorView> {
    match exchange {
        ExchangeView::Failed { cause } => Err(ErrorView::RequestError(cause)),
        ExchangeView::Answered { status, body } => match resolved::<T>(status, body) {
            Ok(answer) => answer.outcome(status),
            Err(e) => Err(e),
        },
    }
}

impl AbacatePay {
    /// A client for the public endpoint that authenticates with `api_key`.
    pub fn new(api_key: String) -> (r: Self)
        ensures
            r.deep_view() == (ClientView {
                api_key: api_key@,
                base_url: "https://api.abacatepay.com/v1"@,
            }),
    {
        AbacatePay { api_key, base_url: "https://api.abacatepay.com/v1".to_owned() }
    }

    /// Starts the simulation of a payment for the charge `id`.
    pub fn create_simulate_pix_payment(&self, id: String) -> (r: SimulatePixPaymentBuilder<'_>)
        ensures
            r.client == self,
            r.id == id,
    {
        SimulatePixPaymentBuilder { client: self, id }
    }

    /// Starts a status check for the charge `id`.
    pub fn check_pix_status(&self, id: String) -> (r: CheckPixStatusBuilder<'_>)
        ensures
            r.client == self,
            r.id == id,
    {
        CheckPixStatusBuilder { client: self, id }
    }

    /// Starts a PIX charge: no amount, and nothing else set.
    pub fn create_pix_charge(&self) -> (r: PixChargeBuilder<'_>)
        ensures
            r.client == self,
            r.data.deep_view() == crate::builders::blank_pix_charge(),
    {
        PixChargeBuilder {
            client: self,
            data: CreatePixChargeData {
                amount: 0,
                expires_in: None,
                description: None,
                customer: None,
            },
        }
    }

    /// Starts a billing: paid once, with no methods, no products, empty
    /// addresses and no customer.
    pub fn create_billing(&self) -> (r: BillingBuilder<'_>)
        ensures
            r.client == self,
            r.data.deep_view() == crate::builders::blank_billing(),
    {
        let r = BillingBuilder {
            client: self,
            data: CreateBillingData {
                frequency: BillingKind::OneTime,
                methods: Vec::new(),
                products: Vec::new(),
                return_url: String::new(),
                completion_url: String::new(),
                customer_id: None,
            },
        };
        proof {
            assert(r.data.methods.deep_view() =~= Seq::empty());
            assert(r.data.products.deep_view() =~= Seq::empty());
        }
        r
    }

    /// The request that this client sends to `path` under its base address,
    /// with the headers that every request carries and, for a request with
    /// a body, the content type.
    pub fn request(
        &self,
        method: Method,
        path: &str,
        query: Vec<(String, String)>,
        body: Option<String>,
    ) -> (r: HttpRequest)
        ensures
            r.deep_view() == self.deep_view().request(
                method,
                path@,
                query.deep_view(),
                body.deep_view(),
            ),
    {
        let mut url = self.base_url.clone();
        url.append(path);
        let mut authorization = "Bearer ".to_owned();
        authorization.append(self.api_key.as_str());
        let mut headers: Vec<(String, String)> = Vec::new();
        headers.push(("Authorization".to_owned(), authorization));
        headers.push(("User-Agent".to_owned(), "Rust SDK 0.1.0".to_owned()));
        if body.is_some() {
            headers.push(("Content-Type".to_owned(), "application/json".to_owned()));
            proof {
                assert(headers.deep_view() =~= json_headers(self.api_key@));
            }
        } else {
            proof {
                assert(headers.deep_view() =~= plain_headers(self.api_key@));
            }
        }
        HttpRequest { method, url, headers, query, body }
    }

    /// The request that lists the billings.
    pub fn list_billings(&self) -> (r: HttpRequest)
        ensures
            r.deep_view() == self.deep_view().request(
                Method::Get,
                "/billing/list"@,
                Seq::empty(),
                None,
            ),
    {
        let query: Vec<(String, String)> = Vec::new();
        proof {
            assert(query.deep_view() =~= Seq::empty());
        }
        self.request(Method::Get, "/billing/list", query, None)
    }

    /// Reads the end of the exchange that `list_billings` asked for.
    pub fn conclude_list_billings(exchange: Exchange) -> (r: Result<Vec<Billing>, AbacatePayError>)
        ensures
            result_view(r) == concluded::<ListBillingResponse, Seq<BillingView>>(
                exchange.deep_view(),
            ),
    {
        match exchange {
            Exchange::Failed { cause } => Err(AbacatePayError::RequestError(cause)),
            Exchange::Answered { status, body } => {
                match Self::handle_response::<ListBillingResponse>(status, body) {
                    Ok(answer) => answer.into_result(status),
                    Err(e) => Err(e),
                }
            },
        }
    }

    /// Decides the result for an answer with status `status` and body
    /// `body`: the record that the body holds, or exactly one kind of
    /// error.
    pub fn handle_response<T: FromJson>(status: u16, body: String) -> (r: Result<
        T,
        AbacatePayError,
    >)
        ensures
            result_view(r) == resolved::<T>(status, body@),
    {
        let parsed = parse(body.as_str());
        classify(status, body, parsed)
    }
}

/// Every request of a client starts with the bearer authorization made from
/// its token and with the client's name, whatever the operation; the
/// address is the path appended to the client's base address.
pub proof fn lemma_every_request_is_authenticated(
    client: ClientView,
    method: Method,
    path: Seq<char>,
    query: Seq<(Seq<char>, Seq<char>)>,
    body: Option<Seq<char>>,
)
    ensures
        client.request(method, path, query, body).headers.len() >= 2,
        client.request(method, path, query, body).headers[0] == (
            "Authorization"@,
            "Bearer "@ + client.api_key,
        ),
        client.request(method, path, query, body).headers[1] == ("User-Agent"@, user_agent()),
        client.request(method, path, query, body).url == client.base_url + path,
{
}

/// An error envelope inside an answer with a success status is reported as
/// the API's error under the status that the answer really had.
pub proof fn lemma_error_in_success_keeps_status<T: FromJson + DeepView<V = EnvelopeView<P>>, P>(
    status: u16,
    body: Seq<char>,
    document: JsonValue,
    envelope: ErrorResponseView,
)
    requires
        status_is_success(status),
        parsed_json(body) == Ok::<JsonValue, Seq<char>>(document),
        T::decoded(document) == Some(EnvelopeView::<P>::Error(envelope)),
    ensures
        concluded::<T, P>(ExchangeView::Answered { status, body }) == Err::<P, ErrorView>(
            ErrorView::ApiError {
                status,
                error: envelope.error,
                message: envelope.message,
                code: envelope.code,
            },
        ),
{
}

/// An exchange that got no answer ends in a request error with the
/// transport's account, and in nothing else.
pub proof fn lemma_transport_failure_is_a_request_error<
    T: FromJson + DeepView<V = EnvelopeView<P>>,
    P,
>(cause: Seq<char>)
    ensures
        concluded::<T, P>(ExchangeView::Failed { cause }) == Err::<P, ErrorView>(
            ErrorView::RequestError(cause),
        ),
{
}

/// A success status with a body that is the envelope around a written
/// charge ends in exactly that charge.
pub proof fn lemma_charge_answer_round_trip(status: u16, body: Seq<char>, charge: PixChargeDataView)
    requires
        status_is_success(status),
        parsed_json(body) == Ok::<JsonValue, Seq<char>>(
            JsonValue::Record(Map::empty().insert("data"@, PixChargeData::encoded(charge))),
        ),
    ensures
        concluded::<PixChargeResponse, PixChargeDataView>(
            ExchangeView::Answered { status, body },
        ) == Ok::<PixChargeDataView, ErrorView>(charge),
{
    reveal_strlit("data");
    reveal_strlit("error");
    assert("data"@.len() != "error"@.len());
    lemma_charge_round_trip(charge);
    lemma_wrapped_payload_is_a_success::<PixChargeData>(
        "data"@,
        PixChargeData::encoded(charge),
        charge,
    );
}

} // verus!

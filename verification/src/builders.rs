//! The builders of the write operations. A builder starts from the
//! operation's defaults, takes one setting at a time, and ends by turning
//! into the request to send. Each setting consumes the builder and hands
//! back the next one, so a builder that has been turned into its request is
//! gone.

use vstd::prelude::*;
use crate::client::{concluded, id_query, AbacatePay};
use crate::encode::ToJson;
use crate::envelope::result_view;
use crate::error::AbacatePayError;
use crate::http::{Exchange, HttpRequest, Method};
use crate::json::{render, rendered};
use crate::models::pix_charge::{
    CheckPixStatusData, CheckPixStatusResponse, CreatePixChargeData, CreatePixChargeDataView,
    PixChargeData, PixChargeDataView, PixChargeResponse,
};
use crate::models::{
    Billing, BillingKind, BillingMethods, BillingView, CreateBillingData, CreateBillingDataView,
    CreateBillingProduct, CreateBillingProductView, CreateBillingResponse, CustomerMetadata,
    CustomerMetadataView,
};

verus! {

/// Builds the request that creates a billing.
pub struct BillingBuilder<'a> {
    pub client: &'a AbacatePay,
    pub data: CreateBillingData,
}

/// Builds the request that creates a PIX charge.
pub struct PixChargeBuilder<'a> {
    pub client: &'a AbacatePay,
    pub data: CreatePixChargeData,
}

/// Builds the request that simulates the payment of a PIX charge.
pub struct SimulatePixPaymentBuilder<'a> {
    pub client: &'a AbacatePay,
    pub id: String,
}

/// Builds the request that asks where a PIX charge stands.
pub struct CheckPixStatusBuilder<'a> {
    pub client: &'a AbacatePay,
    pub id: String,
}

/// The payload that a billing starts from.
pub open spec fn blank_billing() -> CreateBillingDataView {
    CreateBillingDataView {
        frequency: BillingKind::OneTime,
        methods: Seq::empty(),
        products: Seq::empty(),
        return_url: Seq::empty(),
        completion_url: Seq::empty(),
        customer_id: None,
    }
}

/// The payload that a PIX charge starts from.
pub open spec fn blank_pix_charge() -> CreatePixChargeDataView {
    CreatePixChargeDataView { amount: 0, expires_in: None, description: None, customer: None }
}

/// One setting of a billing builder.
pub enum BillingStep {
    Frequency(BillingKind),
    Method(BillingMethods),
    Product(CreateBillingProductView),
    ReturnUrl(Seq<char>),
    CompletionUrl(Seq<char>),
    CustomerId(Seq<char>),
}

/// One setting of a PIX charge builder.
pub enum PixChargeStep {
    Amount(i64),
    ExpiresIn(Option<u64>),
    Description(Option<Seq<char>>),
    Customer(Option<CustomerMetadataView>),
}

impl CreateBillingDataView {
    /// The payload after one setting: a list grows by the item, any other
    /// field takes the new value, and the fields that the setting does not
    /// name stay as they are.
    pub open spec fn apply(self, step: BillingStep) -> CreateBillingDataView {
        match step {
            BillingStep::Frequency(frequency) => CreateBillingDataView { frequency, ..self },
            BillingStep::Method(method) => CreateBillingDataView {
                methods: self.methods.push(method),
                ..self
            },
            BillingStep::Product(product) => CreateBillingDataView {
                products: self.products.push(product),
                ..self
            },
            BillingStep::ReturnUrl(url) => CreateBillingDataView { return_url: url, ..self },
            BillingStep::CompletionUrl(url) => CreateBillingDataView {
                completion_url: url,
                ..self
            },
            BillingStep::CustomerId(id) => CreateBillingDataView {
                customer_id: Some(id),
                ..self
            },
        }
    }

    /// The payload after a run of settings, first to last.
    pub open spec fn apply_all(self, steps: Seq<BillingStep>) -> CreateBillingDataView
        decreases steps.len(),
    {
        if steps.len() == 0 {
            self
        } else {
            self.apply_all(steps.drop_last()).apply(steps.last())
        }
    }
}

impl CreatePixChargeDataView {
    /// The payload after one setting: the field that the setting names
    /// takes the new value and the others stay as they are.
    pub open spec fn apply(self, step: PixChargeStep) -> CreatePixChargeDataView {
        match step {
            PixChargeStep::Amount(amount) => CreatePixChargeDataView { amount, ..self },
            PixChargeStep::ExpiresIn(expires_in) => CreatePixChargeDataView {
                expires_in,
                ..self
            },
            PixChargeStep::Description(description) => CreatePixChargeDataView {
                description,
                ..self
            },
            PixChargeStep::Customer(customer) => CreatePixChargeDataView { customer, ..self },
        }
    }

    /// The payload after a run of settings, first to last.
    pub open spec fn apply_all(self, steps: Seq<PixChargeStep>) -> CreatePixChargeDataView
        decreases steps.len(),
    {
        if steps.len() == 0 {
            self
        } else {
            self.apply_all(steps.drop_last()).apply(steps.last())
        }
    }
}

impl BillingStep {
    /// Whether this setting appends to a list rather than replacing a
    /// value.
    pub open spec fn appends(self) -> bool {
        self is Method || self is Product
    }

    /// Whether two settings name the same field.
    pub open spec fn same_field(self, other: BillingStep) -> bool {
        match self {
            BillingStep::Frequency(_) => other is Frequency,
            BillingStep::Method(_) => other is Method,
            BillingStep::Product(_) => other is Product,
            BillingStep::ReturnUrl(_) => other is ReturnUrl,
            BillingStep::CompletionUrl(_) => other is CompletionUrl,
            BillingStep::CustomerId(_) => other is CustomerId,
        }
    }
}

impl PixChargeStep {
    /// Whether two settings name the same field.
    pub open spec fn same_field(self, other: PixChargeStep) -> bool {
        match self {
            PixChargeStep::Amount(_) => other is Amount,
            PixChargeStep::ExpiresIn(_) => other is ExpiresIn,
            PixChargeStep::Description(_) => other is Description,
            PixChargeStep::Customer(_) => other is Customer,
        }
    }
}

/// `steps` without the settings that name the field of `last`.
pub open spec fn billing_steps_without(steps: Seq<BillingStep>, last: BillingStep) -> Seq<
    BillingStep,
>
    decreases steps.len(),
{
    if steps.len() == 0 {
        steps
    } else if steps.last().same_field(last) {
        billing_steps_without(steps.drop_last(), last)
    } else {
        billing_steps_without(steps.drop_last(), last).push(steps.last())
    }
}

/// `steps` without the settings that name the field of `last`.
pub open spec fn pix_steps_without(steps: Seq<PixChargeStep>, last: PixChargeStep) -> Seq<
    PixChargeStep,
>
    decreases steps.len(),
{
    if steps.len() == 0 {
        steps
    } else if steps.last().same_field(last) {
        pix_steps_without(steps.drop_last(), last)
    } else {
        pix_steps_without(steps.drop_last(), last).push(steps.last())
    }
}

/// The methods that a run of settings adds, in the order of the calls.
pub open spec fn methods_added(steps: Seq<BillingStep>) -> Seq<BillingMethods>
    decreases steps.len(),
{
    if steps.len() == 0 {
        Seq::empty()
    } else {
        match steps.last() {
            BillingStep::Method(method) => methods_added(steps.drop_last()).push(method),
            _ => methods_added(steps.drop_last()),
        }
    }
}

/// The products that a run of settings adds, in the order of the calls.
pub open spec fn products_added(steps: Seq<BillingStep>) -> Seq<CreateBillingProductView>
    decreases steps.len(),
{
    if steps.len() == 0 {
        Seq::empty()
    } else {
        match steps.last() {
            BillingStep::Product(product) => products_added(steps.drop_last()).push(product),
            _ => products_added(steps.drop_last()),
        }
    }
}

/// After any run of settings, a last setting that replaces a value leaves
/// its field with exactly that value, and a last setting that appends
/// leaves its list longer by exactly that item. No other field changes in
/// that last call.
pub proof fn lemma_billing_last_setting(
    start: CreateBillingDataView,
    steps: Seq<BillingStep>,
    last: BillingStep,
)
    ensures
        start.apply_all(steps.push(last)) == start.apply_all(steps).apply(last),
        match last {
            BillingStep::Frequency(frequency) => start.apply_all(steps.push(last)).frequency
                == frequency,
            BillingStep::Method(method) => start.apply_all(steps.push(last)).methods
                == start.apply_all(steps).methods.push(method),
            BillingStep::Product(product) => start.apply_all(steps.push(last)).products
                == start.apply_all(steps).products.push(product),
            BillingStep::ReturnUrl(url) => start.apply_all(steps.push(last)).return_url == url,
            BillingStep::CompletionUrl(url) => start.apply_all(steps.push(last)).completion_url
                == url,
            BillingStep::CustomerId(id) => start.apply_all(steps.push(last)).customer_id == Some(
                id,
            ),
        },
{
    assert(steps.push(last).drop_last() =~= steps);
}

/// Overwriting: where the last setting replaces a value, the payload is the
/// same as if no earlier setting had named that field at all.
pub proof fn lemma_billing_earlier_settings_forgotten(
    start: CreateBillingDataView,
    steps: Seq<BillingStep>,
    last: BillingStep,
)
    requires
        !last.appends(),
    ensures
        start.apply_all(steps.push(last)) == start.apply_all(
            billing_steps_without(steps, last).push(last),
        ),
    decreases steps.len(),
{
    let kept = billing_steps_without(steps, last);
    assert(steps.push(last).drop_last() =~= steps);
    assert(kept.push(last).drop_last() =~= kept);
    if steps.len() > 0 {
        let init = steps.drop_last();
        let step = steps.last();
        let kept_init = billing_steps_without(init, last);
        lemma_billing_earlier_settings_forgotten(start, init, last);
        assert(init.push(last).drop_last() =~= init);
        assert(kept_init.push(last).drop_last() =~= kept_init);
        let a = start.apply_all(init);
        let b = start.apply_all(kept_init);
        assert(start.apply_all(init.push(last)) == a.apply(last));
        assert(start.apply_all(kept_init.push(last)) == b.apply(last));
        assert(start.apply_all(steps) == a.apply(step));
        assert(start.apply_all(steps.push(last)) == a.apply(step).apply(last));
        assert(start.apply_all(kept.push(last)) == start.apply_all(kept).apply(last));
        if step.same_field(last) {
            assert(a.apply(step).apply(last) == a.apply(last));
        } else {
            assert(kept == kept_init.push(step));
            assert(kept.drop_last() =~= kept_init);
            assert(start.apply_all(kept) == b.apply(step));
            assert(a.apply(step).apply(last) == a.apply(last).apply(step));
            assert(b.apply(step).apply(last) == b.apply(last).apply(step));
        }
    }
}

/// Accumulation: after any run of settings the two lists hold what they
/// started with, followed by every item that was added, in the order of
/// the calls.
pub proof fn lemma_billing_lists_accumulate(start: CreateBillingDataView, steps: Seq<BillingStep>)
    ensures
        start.apply_all(steps).methods == start.methods + methods_added(steps),
        start.apply_all(steps).products == start.products + products_added(steps),
    decreases steps.len(),
{
    if steps.len() == 0 {
        assert(start.methods + methods_added(steps) =~= start.methods);
        assert(start.products + products_added(steps) =~= start.products);
    } else {
        let init = steps.drop_last();
        lemma_billing_lists_accumulate(start, init);
        assert(start.apply_all(steps).methods =~= start.methods + methods_added(steps));
        assert(start.apply_all(steps).products =~= start.products + products_added(steps));
    }
}

/// After any run of settings, the last setting leaves its field with
/// exactly the value it names, and the other fields as they were before
/// it.
pub proof fn lemma_pix_last_setting(
    start: CreatePixChargeDataView,
    steps: Seq<PixChargeStep>,
    last: PixChargeStep,
)
    ensures
        start.apply_all(steps.push(last)) == start.apply_all(steps).apply(last),
        match last {
            PixChargeStep::Amount(amount) => start.apply_all(steps.push(last)).amount == amount,
            PixChargeStep::ExpiresIn(expires_in) => start.apply_all(steps.push(last)).expires_in
                == expires_in,
            PixChargeStep::Description(description) => start.apply_all(
                steps.push(last),
            ).description == description,
            PixChargeStep::Customer(customer) => start.apply_all(steps.push(last)).customer
                == customer,
        },
{
    assert(steps.push(last).drop_last() =~= steps);
}

/// Overwriting: the payload is the same as if no earlier setting had named
/// the field of the last one at all.
pub proof fn lemma_pix_earlier_settings_forgotten(
    start: CreatePixChargeDataView,
    steps: Seq<PixChargeStep>,
    last: PixChargeStep,
)
    ensures
        start.apply_all(steps.push(last)) == start.apply_all(
            pix_steps_without(steps, last).push(last),
        ),
    decreases steps.len(),
{
    let kept = pix_steps_without(steps, last);
    assert(steps.push(last).drop_last() =~= steps);
    assert(kept.push(last).drop_last() =~= kept);
    if steps.len() > 0 {
        let init = steps.drop_last();
        let step = steps.last();
        let kept_init = pix_steps_without(init, last);
        lemma_pix_earlier_settings_forgotten(start, init, last);
        assert(init.push(last).drop_last() =~= init);
        assert(kept_init.push(last).drop_last() =~= kept_init);
        let a = start.apply_all(init);
        let b = start.apply_all(kept_init);
        assert(start.apply_all(init.push(last)) == a.apply(last));
        assert(start.apply_all(kept_init.push(last)) == b.apply(last));
        assert(start.apply_all(steps) == a.apply(step));
        assert(start.apply_all(steps.push(last)) == a.apply(step).apply(last));
        assert(start.apply_all(kept.push(last)) == start.apply_all(kept).apply(last));
        if step.same_field(last) {
            assert(a.apply(step).apply(last) == a.apply(last));
        } else {
            assert(kept == kept_init.push(step));
            assert(kept.drop_last() =~= kept_init);
            assert(start.apply_all(kept) == b.apply(step));
            assert(a.apply(step).apply(last) == a.apply(last).apply(step));
            assert(b.apply(step).apply(last) == b.apply(last).apply(step));
        }
    }
}

impl<'a> BillingBuilder<'a> {
    /// Sets how often the billing is charged, in place of what was set.
    pub fn frequency(self, frequency: BillingKind) -> (r: Self)
        ensures
            r.client == self.client,
            r.data.deep_view() == self.data.deep_view().apply(BillingStep::Frequency(frequency)),
    {
        let mut data = self.data;
        data.frequency = frequency;
        BillingBuilder { client: self.client, data }
    }

    /// Adds a payment method after those added before.
    pub fn method(self, method: BillingMethods) -> (r: Self)
        ensures
            r.client == self.client,
            r.data.deep_view() == self.data.deep_view().apply(BillingStep::Method(method)),
    {
        let mut data = self.data;
        data.methods.push(method);
        proof {
            assert(data.methods.deep_view() =~= self.data.methods.deep_view().push(method));
        }
        BillingBuilder { client: self.client, data }
    }

    /// Adds a product line after those added before.
    pub fn product(self, product: CreateBillingProduct) -> (r: Self)
        ensures
            r.client == self.client,
            r.data.deep_view() == self.data.deep_view().apply(
                BillingStep::Product(product.deep_view()),
            ),
    {
        let mut data = self.data;
        data.products.push(product);
        proof {
            assert(data.products.deep_view() =~= self.data.products.deep_view().push(
                product.deep_view(),
            ));
        }
        BillingBuilder { client: self.client, data }
    }

    /// Sets where the payer goes back to, in place of what was set.
    pub fn return_url(self, url: String) -> (r: Self)
        ensures
            r.client == self.client,
            r.data.deep_view() == self.data.deep_view().apply(BillingStep::ReturnUrl(url@)),
    {
        let mut data = self.data;
        data.return_url = url;
        BillingBuilder { client: self.client, data }
    }

    /// Sets where the payer lands after paying, in place of what was set.
    pub fn completion_url(self, url: String) -> (r: Self)
        ensures
            r.client == self.client,
            r.data.deep_view() == self.data.deep_view().apply(BillingStep::CompletionUrl(url@)),
    {
        let mut data = self.data;
        data.completion_url = url;
        BillingBuilder { client: self.client, data }
    }

    /// Sets the customer that is billed, in place of what was set.
    pub fn customer_id(self, id: String) -> (r: Self)
        ensures
            r.client == self.client,
            r.data.deep_view() == self.data.deep_view().apply(BillingStep::CustomerId(id@)),
    {
        let mut data = self.data;
        data.customer_id = Some(id);
        BillingBuilder { client: self.client, data }
    }

    /// The request that creates the billing, with `body` as the JSON text
    /// of the payload.
    pub fn request_with(&self, body: String) -> (r: HttpRequest)
        ensures
            r.deep_view() == self.client.deep_view().request(
                Method::Post,
                "/billing/create"@,
                Seq::empty(),
                Some(body@),
            ),
    {
        let query: Vec<(String, String)> = Vec::new();
        proof {
            assert(query.deep_view() =~= Seq::empty());
        }
        self.client.request(Method::Post, "/billing/create", query, Some(body))
    }

    /// Ends the building. The payload is written as JSON and becomes the
    /// body of the request that creates the billing. Nothing of the payload
    /// is checked here, so there is a request for every payload, the blank
    /// one included.
    pub fn build(self) -> (r: Result<HttpRequest, AbacatePayError>)
        ensures
            r matches Ok(request) && request.deep_view() == self.client.deep_view().request(
                Method::Post,
                "/billing/create"@,
                Seq::empty(),
                Some(rendered(CreateBillingData::encoded(self.data.deep_view()))),
            ),
    {
        match render(&self.data.to_json()) {
            Ok(body) => Ok(self.request_with(body)),
            Err(cause) => Err(AbacatePayError::RequestError(cause)),
        }
    }

    /// Reads the end of the exchange that `build` asked for.
    pub fn conclude(exchange: Exchange) -> (r: Result<Billing, AbacatePayError>)
        ensures
            result_view(r) == concluded::<CreateBillingResponse, BillingView>(
                exchange.deep_view(),
            ),
    {
        match exchange {
            Exchange::Failed { cause } => Err(AbacatePayError::RequestError(cause)),
            Exchange::Answered { status, body } => {
                match AbacatePay::handle_response::<CreateBillingResponse>(status, body) {
                    Ok(answer) => answer.into_result(status),
                    Err(e) => Err(e),
                }
            },
        }
    }
}

impl<'a> PixChargeBuilder<'a> {
    /// Sets the amount, in place of what was set.
    pub fn amount(self, amount: i64) -> (r: Self)
        ensures
            r.client == self.client,
            r.data.deep_view() == self.data.deep_view().apply(PixChargeStep::Amount(amount)),
    {
        let mut data = self.data;
        data.amount = amount;
        PixChargeBuilder { client: self.client, data }
    }

    /// Sets or clears the seconds until the charge runs out.
    pub fn expires_in(self, expires_in: Option<u64>) -> (r: Self)
        ensures
            r.client == self.client,
            r.data.deep_view() == self.data.deep_view().apply(
                PixChargeStep::ExpiresIn(expires_in),
            ),
    {
        let mut data = self.data;
        data.expires_in = expires_in;
        PixChargeBuilder { client: self.client, data }
    }

    /// Sets or clears the description.
    pub fn description(self, description: Option<String>) -> (r: Self)
        ensures
            r.client == self.client,
            r.data.deep_view() == self.data.deep_view().apply(
                PixChargeStep::Description(description.deep_view()),
            ),
    {
        let mut data = self.data;
        data.description = description;
        PixChargeBuilder { client: self.client, data }
    }

    /// Sets or clears the customer's details.
    pub fn customer(self, customer: Option<CustomerMetadata>) -> (r: Self)
        ensures
            r.client == self.client,
            r.data.deep_view() == self.data.deep_view().apply(
                PixChargeStep::Customer(customer.deep_view()),
            ),
    {
        let mut data = self.data;
        data.customer = customer;
        PixChargeBuilder { client: self.client, data }
    }

    /// The request that creates the charge, with `body` as the JSON text of
    /// the payload.
    pub fn request_with(&self, body: String) -> (r: HttpRequest)
        ensures
            r.deep_view() == self.client.deep_view().request(
                Method::Post,
                "/pixQrCode/create"@,
                Seq::empty(),
                Some(body@),
            ),
    {
        let query: Vec<(String, String)> = Vec::new();
        proof {
            assert(query.deep_view() =~= Seq::empty());
        }
        self.client.request(Method::Post, "/pixQrCode/create", query, Some(body))
    }

    /// Ends the building. The payload is written as JSON and becomes the
    /// body of the request that creates the charge. Nothing of the payload
    /// is checked here, so there is a request for every payload, the blank
    /// one included.
    pub fn build(self) -> (r: Result<HttpRequest, AbacatePayError>)
        ensures
            r matches Ok(request) && request.deep_view() == self.client.deep_view().request(
                Method::Post,
                "/pixQrCode/create"@,
                Seq::empty(),
                Some(rendered(CreatePixChargeData::encoded(self.data.deep_view()))),
            ),
    {
        match render(&self.data.to_json()) {
            Ok(body) => Ok(self.request_with(body)),
            Err(cause) => Err(AbacatePayError::RequestError(cause)),
        }
    }

    /// Reads the end of the exchange that `build` asked for.
    pub fn conclude(exchange: Exchange) -> (r: Result<PixChargeData, AbacatePayError>)
        ensures
            result_view(r) == concluded::<PixChargeResponse, PixChargeDataView>(
                exchange.deep_view(),
            ),
    {
        match exchange {
            Exchange::Failed { cause } => Err(AbacatePayError::RequestError(cause)),
            Exchange::Answered { status, body } => {
                match AbacatePay::handle_response::<PixChargeResponse>(status, body) {
                    Ok(answer) => answer.into_result(status),
                    Err(e) => Err(e),
                }
            },
        }
    }
}

impl<'a> SimulatePixPaymentBuilder<'a> {
    /// Names another charge, in place of the one that was named.
    pub fn id(self, id: String) -> (r: Self)
        ensures
            r.client == self.client,
            r.id == id,
    {
        SimulatePixPaymentBuilder { client: self.client, id }
    }

    /// Ends the building: the request that simulates the payment of the
    /// charge, which the query names.
    pub fn build(self) -> (r: HttpRequest)
        ensures
            r.deep_view() == self.client.deep_view().request(
                Method::Post,
                "/pixQrCode/simulate-payment"@,
                id_query(self.id@),
                None,
            ),
    {
        let mut query: Vec<(String, String)> = Vec::new();
        query.push(("id".to_owned(), self.id));
        proof {
            assert(query.deep_view() =~= id_query(self.id@));
        }
        self.client.request(Method::Post, "/pixQrCode/simulate-payment", query, None)
    }

    /// Reads the end of the exchange that `build` asked for.
    pub fn conclude(exchange: Exchange) -> (r: Result<PixChargeData, AbacatePayError>)
        ensures
            result_view(r) == concluded::<PixChargeResponse, PixChargeDataView>(
                exchange.deep_view(),
            ),
    {
        PixChargeBuilder::conclude(exchange)
    }
}

impl<'a> CheckPixStatusBuilder<'a> {
    /// Names another charge, in place of the one that was named.
    pub fn id(self, id: String) -> (r: Self)
        ensures
            r.client == self.client,
            r.id == id,
    {
        CheckPixStatusBuilder { client: self.client, id }
    }

    /// Ends the building: the request that asks for the status of the
    /// charge, which the query names.
    pub fn build(self) -> (r: HttpRequest)
        ensures
            r.deep_view() == self.client.deep_view().request(
                Method::Post,
                "/pixQrCode/check"@,
                id_query(self.id@),
                None,
            ),
    {
        let mut query: Vec<(String, String)> = Vec::new();
        query.push(("id".to_owned(), self.id));
        proof {
            assert(query.deep_view() =~= id_query(self.id@));
        }
        self.client.request(Method::Post, "/pixQrCode/check", query, None)
    }

    /// Reads the end of the exchange that `build` asked for.
    pub fn conclude(exchange: Exchange) -> (r: Result<CheckPixStatusData, AbacatePayError>)
        ensures
            result_view(r) == concluded::<CheckPixStatusResponse, CheckPixStatusData>(
                exchange.deep_view(),
            ),
    {
        match exchange {
            Exchange::Failed { cause } => Err(AbacatePayError::RequestError(cause)),
            Exchange::Answered { status, body } => {
                match AbacatePay::handle_response::<CheckPixStatusResponse>(status, body) {
                    Ok(answer) => answer.into_result(status),
                    Err(e) => Err(e),
                }
            },
        }
    }
}

} // verus!

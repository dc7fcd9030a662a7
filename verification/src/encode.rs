//! Writing request payloads as JSON documents.

use vstd::prelude::*;
use crate::decode::{decoded_list, FromJson};
use crate::json::{
    empty_record, from_boolean, from_integer, from_items, from_text, from_unsigned, json_view,
    null, set_member, JsonValue,
};
use crate::models::pix_charge::{
    CreatePixChargeData, CreatePixChargeDataView, PixChargeData, PixChargeDataView,
};
use crate::models::{
    BillingKind, BillingMethods, CreateBillingData, CreateBillingDataView, CreateBillingProduct,
    CreateBillingProductView, CustomerMetadata, CustomerMetadataView,
};

verus! {

/// A type whose values can be written as a JSON document.
pub trait ToJson: DeepView {
    /// The document that stands for `view`.
    spec fn encoded(view: Self::V) -> JsonValue;

    /// Writes this value as a document.
    fn to_json(&self) -> (r: serde_json::Value)
        ensures
            json_view(r) == Self::encoded(self.deep_view()),
    ;
}

/// The document for an optional string: the string, or null.
pub open spec fn text_or_null(text: Option<Seq<char>>) -> JsonValue {
    match text {
        Some(t) => JsonValue::Text(t),
        None => JsonValue::Null,
    }
}

/// `fields` with `member` under `key` where there is a member, and `fields`
/// as they are where there is none.
pub open spec fn with_optional(
    fields: Map<Seq<char>, JsonValue>,
    key: Seq<char>,
    member: Option<JsonValue>,
) -> Map<Seq<char>, JsonValue> {
    match member {
        Some(m) => fields.insert(key, m),
        None => fields,
    }
}

/// The array that stands for a sequence of values.
pub open spec fn encoded_list<T: ToJson>(items: Seq<T::V>) -> JsonValue {
    JsonValue::List(Seq::new(items.len(), |i: int| T::encoded(items[i])))
}

/// Writes an optional string: the string, or null.
pub fn text_or_null_json(text: &Option<String>) -> (r: serde_json::Value)
    ensures
        json_view(r) == text_or_null(text.deep_view()),
{
    match text {
        Some(t) => from_text(t.as_str()),
        None => null(),
    }
}

/// Writes a list as an array, item by item.
pub fn list_to_json<T: ToJson>(items: &Vec<T>) -> (r: serde_json::Value)
    ensures
        json_view(r) == encoded_list::<T>(items.deep_view()),
{
    let mut out: Vec<serde_json::Value> = Vec::new();
    let mut i: usize = 0;
    while i < items.len()
        invariant
            i <= items.len(),
            out@.len() == i,
            forall|k: int|
                0 <= k < i ==> json_view(#[trigger] out@[k]) == T::encoded(items@[k].deep_view()),
        decreases items.len() - i,
    {
        out.push(items[i].to_json());
        i += 1;
    }
    let r = from_items(out);
    proof {
        assert(json_view(r)->List_0 =~= encoded_list::<T>(items.deep_view())->List_0);
    }
    r
}

impl ToJson for BillingKind {
    open spec fn encoded(view: BillingKind) -> JsonValue {
        JsonValue::Text(view.name())
    }

    fn to_json(&self) -> (r: serde_json::Value) {
        match self {
            BillingKind::OneTime => from_text("OneTime"),
        }
    }
}

impl ToJson for BillingMethods {
    open spec fn encoded(view: BillingMethods) -> JsonValue {
        JsonValue::Text(view.name())
    }

    fn to_json(&self) -> (r: serde_json::Value) {
        match self {
            BillingMethods::Pix => from_text("Pix"),
        }
    }
}

impl ToJson for CustomerMetadata {
    open spec fn encoded(view: CustomerMetadataView) -> JsonValue {
        JsonValue::Record(
            Map::empty().insert("name"@, JsonValue::Text(view.name)).insert(
                "cellphone"@,
                JsonValue::Text(view.cellphone),
            ).insert("taxId"@, JsonValue::Text(view.tax_id)).insert(
                "email"@,
                JsonValue::Text(view.email),
            ),
        )
    }

    fn to_json(&self) -> (r: serde_json::Value) {
        let mut r = empty_record();
        set_member(&mut r, "name", from_text(self.name.as_str()));
        set_member(&mut r, "cellphone", from_text(self.cellphone.as_str()));
        set_member(&mut r, "taxId", from_text(self.tax_id.as_str()));
        set_member(&mut r, "email", from_text(self.email.as_str()));
        r
    }
}

impl ToJson for CreateBillingProduct {
    open spec fn encoded(view: CreateBillingProductView) -> JsonValue {
        JsonValue::Record(
            Map::empty().insert("externalId"@, JsonValue::Text(view.external_id)).insert(
                "name"@,
                JsonValue::Text(view.name),
            ).insert("quantity"@, JsonValue::Integer(view.quantity as int)).insert(
                "price"@,
                JsonValue::Integer(view.price as int),
            ).insert("description"@, text_or_null(view.description)),
        )
    }

    fn to_json(&self) -> (r: serde_json::Value) {
        let mut r = empty_record();
        set_member(&mut r, "externalId", from_text(self.external_id.as_str()));
        set_member(&mut r, "name", from_text(self.name.as_str()));
        set_member(&mut r, "quantity", from_integer(self.quantity));
        set_member(&mut r, "price", from_integer(self.price));
        set_member(&mut r, "description", text_or_null_json(&self.description));
        r
    }
}

impl ToJson for CreateBillingData {
    open spec fn encoded(view: CreateBillingDataView) -> JsonValue {
        JsonValue::Record(
            Map::empty().insert("frequency"@, BillingKind::encoded(view.frequency)).insert(
                "methods"@,
                encoded_list::<BillingMethods>(view.methods),
            ).insert("products"@, encoded_list::<CreateBillingProduct>(view.products)).insert(
                "returnUrl"@,
                JsonValue::Text(view.return_url),
            ).insert("completionUrl"@, JsonValue::Text(view.completion_url)).insert(
                "customerId"@,
                text_or_null(view.customer_id),
            ),
        )
    }

    fn to_json(&self) -> (r: serde_json::Value) {
        let mut r = empty_record();
        set_member(&mut r, "frequency", self.frequency.to_json());
        set_member(&mut r, "methods", list_to_json(&self.methods));
        set_member(&mut r, "products", list_to_json(&self.products));
        set_member(&mut r, "returnUrl", from_text(self.return_url.as_str()));
        set_member(&mut r, "completionUrl", from_text(self.completion_url.as_str()));
        set_member(&mut r, "customerId", text_or_null_json(&self.customer_id));
        r
    }
}

impl ToJson for CreatePixChargeData {
    /// `amount` is always written; the other members only where they are
    /// set.
    open spec fn encoded(view: CreatePixChargeDataView) -> JsonValue {
        JsonValue::Record(
            with_optional(
                with_optional(
                    with_optional(
                        Map::empty().insert("amount"@, JsonValue::Integer(view.amount as int)),
                        "expiresIn"@,
                        match view.expires_in {
                            Some(n) => Some(JsonValue::Integer(n as int)),
                            None => None,
                        },
                    ),
                    "description"@,
                    match view.description {
                        Some(t) => Some(JsonValue::Text(t)),
                        None => None,
                    },
                ),
                "customer"@,
                match view.customer {
                    Some(c) => Some(CustomerMetadata::encoded(c)),
                    None => None,
                },
            ),
        )
    }

    fn to_json(&self) -> (r: serde_json::Value) {
        let mut r = empty_record();
        set_member(&mut r, "amount", from_integer(self.amount));
        match self.expires_in {
            Some(n) => {
                set_member(&mut r, "expiresIn", from_unsigned(n));
            },
            None => {},
        }
        match &self.description {
            Some(t) => {
                set_member(&mut r, "description", from_text(t.as_str()));
            },
            None => {},
        }
        match &self.customer {
            Some(c) => {
                set_member(&mut r, "customer", c.to_json());
            },
            None => {},
        }
        r
    }
}

impl ToJson for PixChargeData {
    open spec fn encoded(view: PixChargeDataView) -> JsonValue {
        JsonValue::Record(
            Map::empty().insert("amount"@, JsonValue::Integer(view.amount as int)).insert(
                "status"@,
                JsonValue::Text(view.status),
            ).insert("devMode"@, JsonValue::Bool(view.dev_mode)).insert(
                "method"@,
                JsonValue::Text(view.method),
            ).insert("brCode"@, JsonValue::Text(view.br_code)).insert(
                "brCodeBase64"@,
                JsonValue::Text(view.br_code_base64),
            ).insert("platformFee"@, JsonValue::Integer(view.platform_fee as int)).insert(
                "createdAt"@,
                JsonValue::Text(view.created_at),
            ).insert("updatedAt"@, JsonValue::Text(view.updated_at)).insert(
                "expiresAt"@,
                JsonValue::Text(view.expires_at),
            ).insert("id"@, JsonValue::Text(view.id)),
        )
    }

    fn to_json(&self) -> (r: serde_json::Value) {
        let mut r = empty_record();
        set_member(&mut r, "amount", from_integer(self.amount));
        set_member(&mut r, "status", from_text(self.status.as_str()));
        set_member(&mut r, "devMode", from_boolean(self.dev_mode));
        set_member(&mut r, "method", from_text(self.method.as_str()));
        set_member(&mut r, "brCode", from_text(self.br_code.as_str()));
        set_member(&mut r, "brCodeBase64", from_text(self.br_code_base64.as_str()));
        set_member(&mut r, "platformFee", from_integer(self.platform_fee));
        set_member(&mut r, "createdAt", from_text(self.created_at.as_str()));
        set_member(&mut r, "updatedAt", from_text(self.updated_at.as_str()));
        set_member(&mut r, "expiresAt", from_text(self.expires_at.as_str()));
        set_member(&mut r, "id", from_text(self.id.as_str()));
        r
    }
}

/// Writing a customer's details and reading the document back gives the
/// same details.
pub proof fn lemma_customer_round_trip(view: CustomerMetadataView)
    ensures
        CustomerMetadata::decoded(CustomerMetadata::encoded(view)) == Some(view),
{
    reveal_strlit("name");
    reveal_strlit("cellphone");
    reveal_strlit("taxId");
    reveal_strlit("email");
    assert("name"@.len() == 4 && "cellphone"@.len() == 9 && "taxId"@.len() == 5 && "email"@.len()
        == 5);
    assert("taxId"@[0] != "email"@[0]);
    assert("name"@ != "cellphone"@ && "name"@ != "taxId"@ && "name"@ != "email"@);
    assert("cellphone"@ != "taxId"@ && "cellphone"@ != "email"@ && "taxId"@ != "email"@);
    let document = CustomerMetadata::encoded(view);
    assert(document.text_at("name"@) == Some(view.name));
    assert(document.text_at("cellphone"@) == Some(view.cellphone));
    assert(document.text_at("taxId"@) == Some(view.tax_id));
    assert(document.text_at("email"@) == Some(view.email));
}

/// Writing a billing method or a frequency and reading the document back
/// gives the same value.
pub proof fn lemma_names_round_trip(method: BillingMethods, frequency: BillingKind)
    ensures
        BillingMethods::decoded(BillingMethods::encoded(method)) == Some(method),
        BillingKind::decoded(BillingKind::encoded(frequency)) == Some(frequency),
{
}

/// Writing a list and reading the document back gives the same list,
/// provided that holds of every single item.
pub proof fn lemma_list_round_trip<T: ToJson + FromJson>(items: Seq<T::V>)
    requires
        forall|item: T::V| T::decoded(#[trigger] T::encoded(item)) == Some(item),
    ensures
        decoded_list::<T>(encoded_list::<T>(items)) == Some(items),
{
    let documents = encoded_list::<T>(items)->List_0;
    assert forall|i: int| 0 <= i < documents.len() implies (#[trigger] T::decoded(
        documents[i],
    )) is Some by {
        assert(documents[i] == T::encoded(items[i]));
    }
    assert forall|i: int| 0 <= i < items.len() implies T::decoded(documents[i])->Some_0
        == items[i] by {
        assert(documents[i] == T::encoded(items[i]));
    }
    assert(decoded_list::<T>(encoded_list::<T>(items))->Some_0 =~= items);
}

/// Writing a billing's product line and reading the document back gives
/// the same line.
pub proof fn lemma_product_round_trip(view: CreateBillingProductView)
    ensures
        CreateBillingProduct::decoded(CreateBillingProduct::encoded(view)) == Some(view),
{
    reveal_strlit("externalId");
    reveal_strlit("name");
    reveal_strlit("quantity");
    reveal_strlit("price");
    reveal_strlit("description");
    assert("externalId"@.len() == 10 && "name"@.len() == 4 && "quantity"@.len() == 8
        && "price"@.len() == 5 && "description"@.len() == 11);
    assert("externalId"@ != "name"@ && "externalId"@ != "quantity"@ && "externalId"@ != "price"@
        && "externalId"@ != "description"@);
    assert("name"@ != "quantity"@ && "name"@ != "price"@ && "name"@ != "description"@);
    assert("quantity"@ != "price"@ && "quantity"@ != "description"@ && "price"@
        != "description"@);
    let document = CreateBillingProduct::encoded(view);
    assert(document.text_at("externalId"@) == Some(view.external_id));
    assert(document.text_at("name"@) == Some(view.name));
    assert(document.integer_at("quantity"@) == Some(view.quantity));
    assert(document.integer_at("price"@) == Some(view.price));
    assert(document.optional_text_at("description"@) == Some(view.description));
}

/// Writing a billing payload and reading the document back gives the same
/// payload: the writer loses nothing of what the builder was told.
pub proof fn lemma_billing_payload_round_trip(view: CreateBillingDataView)
    ensures
        CreateBillingData::decoded(CreateBillingData::encoded(view)) == Some(view),
{
    reveal_strlit("frequency");
    reveal_strlit("methods");
    reveal_strlit("products");
    reveal_strlit("returnUrl");
    reveal_strlit("completionUrl");
    reveal_strlit("customerId");
    assert("frequency"@.len() == 9 && "methods"@.len() == 7 && "products"@.len() == 8
        && "returnUrl"@.len() == 9 && "completionUrl"@.len() == 13 && "customerId"@.len() == 10);
    assert("frequency"@[0] != "returnUrl"@[0]);
    assert("frequency"@ != "methods"@ && "frequency"@ != "products"@ && "frequency"@
        != "returnUrl"@ && "frequency"@ != "completionUrl"@ && "frequency"@ != "customerId"@);
    assert("methods"@ != "products"@ && "methods"@ != "returnUrl"@ && "methods"@
        != "completionUrl"@ && "methods"@ != "customerId"@);
    assert("products"@ != "returnUrl"@ && "products"@ != "completionUrl"@ && "products"@
        != "customerId"@);
    assert("returnUrl"@ != "completionUrl"@ && "returnUrl"@ != "customerId"@ && "completionUrl"@
        != "customerId"@);
    assert forall|method: BillingMethods|
        BillingMethods::decoded(#[trigger] BillingMethods::encoded(method)) == Some(method) by {
        lemma_names_round_trip(method, BillingKind::OneTime);
    }
    assert forall|product: CreateBillingProductView|
        CreateBillingProduct::decoded(#[trigger] CreateBillingProduct::encoded(product)) == Some(
            product,
        ) by {
        lemma_product_round_trip(product);
    }
    lemma_list_round_trip::<BillingMethods>(view.methods);
    lemma_list_round_trip::<CreateBillingProduct>(view.products);
    lemma_names_round_trip(BillingMethods::Pix, view.frequency);
    let document = CreateBillingData::encoded(view);
    assert(document.decoded_at::<BillingKind>("frequency"@) == Some(view.frequency));
    assert(document.decoded_at::<Vec<BillingMethods>>("methods"@) == Some(view.methods));
    assert(document.decoded_at::<Vec<CreateBillingProduct>>("products"@) == Some(view.products));
    assert(document.text_at("returnUrl"@) == Some(view.return_url));
    assert(document.text_at("completionUrl"@) == Some(view.completion_url));
    assert(document.optional_text_at("customerId"@) == Some(view.customer_id));
}

/// Writing a PIX charge payload and reading the document back gives the
/// same payload, whichever of its optional members are set.
pub proof fn lemma_pix_payload_round_trip(view: CreatePixChargeDataView)
    ensures
        CreatePixChargeData::decoded(CreatePixChargeData::encoded(view)) == Some(view),
{
    reveal_strlit("amount");
    reveal_strlit("expiresIn");
    reveal_strlit("description");
    reveal_strlit("customer");
    assert("amount"@.len() == 6 && "expiresIn"@.len() == 9 && "description"@.len() == 11
        && "customer"@.len() == 8);
    assert("amount"@ != "expiresIn"@ && "amount"@ != "description"@ && "amount"@ != "customer"@);
    assert("expiresIn"@ != "description"@ && "expiresIn"@ != "customer"@ && "description"@
        != "customer"@);
    if view.customer is Some {
        lemma_customer_round_trip(view.customer->Some_0);
    }
    let document = CreatePixChargeData::encoded(view);
    assert(document.integer_at("amount"@) == Some(view.amount));
    assert(document.optional_unsigned_at("expiresIn"@) == Some(view.expires_in));
    assert(document.optional_text_at("description"@) == Some(view.description));
    assert(document.optional_at::<CustomerMetadata>("customer"@) == Some(view.customer));
}

/// Writing a charge and reading the document back gives the same charge,
/// every field in its place.
pub proof fn lemma_charge_round_trip(view: PixChargeDataView)
    ensures
        PixChargeData::decoded(PixChargeData::encoded(view)) == Some(view),
{
    reveal_strlit("amount");
    reveal_strlit("status");
    reveal_strlit("devMode");
    reveal_strlit("method");
    reveal_strlit("brCode");
    reveal_strlit("brCodeBase64");
    reveal_strlit("platformFee");
    reveal_strlit("createdAt");
    reveal_strlit("updatedAt");
    reveal_strlit("expiresAt");
    reveal_strlit("id");
    assert("amount"@.len() == 6 && "status"@.len() == 6 && "method"@.len() == 6 && "brCode"@.len()
        == 6);
    assert("amount"@[0] == 'a' && "status"@[0] == 's' && "method"@[0] == 'm' && "brCode"@[0]
        == 'b');
    assert("createdAt"@.len() == 9 && "updatedAt"@.len() == 9 && "expiresAt"@.len() == 9);
    assert("createdAt"@[0] == 'c' && "updatedAt"@[0] == 'u' && "expiresAt"@[0] == 'e');
    assert("devMode"@.len() == 7 && "brCodeBase64"@.len() == 12 && "platformFee"@.len() == 11
        && "id"@.len() == 2);
    let document = PixChargeData::encoded(view);
    assert(document.integer_at("amount"@) == Some(view.amount));
    assert(document.text_at("status"@) == Some(view.status));
    assert(document.boolean_at("devMode"@) == Some(view.dev_mode));
    assert(document.text_at("method"@) == Some(view.method));
    assert(document.text_at("brCode"@) == Some(view.br_code));
    assert(document.text_at("brCodeBase64"@) == Some(view.br_code_base64));
    assert(document.integer_at("platformFee"@) == Some(view.platform_fee));
    assert(document.text_at("createdAt"@) == Some(view.created_at));
    assert(document.text_at("updatedAt"@) == Some(view.updated_at));
    assert(document.text_at("expiresAt"@) == Some(view.expires_at));
    assert(document.text_at("id"@) == Some(view.id));
}

} // verus!

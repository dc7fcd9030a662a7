//! Billing records as the API reports them, and the payload that asks for a
//! new billing.

use vstd::prelude::*;
use crate::decode::{
    boolean_field, field, instant_field, integer_field, optional_field, optional_text_field,
    text_field, FromJson,
};
use crate::envelope::{envelope_of, read_envelope, result_view, EnvelopeView};
use crate::error::{AbacatePayError, ErrorResponse, ErrorResponseView};
use crate::json::{text_of, JsonValue};
use crate::text::same_text;
use crate::time::Timestamp;

pub mod pix_charge;

verus! {

/// Where a billing stands.
#[derive(Debug, PartialEq, Eq, Clone, Copy, Structural)]
pub enum BillingStatus {
    PENDING,
    EXPIRED,
    CANCELLED,
    PAID,
    REFUNDED,
}

/// How a billing can be paid.
#[derive(Debug, PartialEq, Eq, Clone, Copy, Structural)]
pub enum BillingMethods {
    Pix,
}

/// How often a billing is charged.
#[derive(Debug, PartialEq, Eq, Clone, Copy, Structural)]
pub enum BillingKind {
    OneTime,
}

impl BillingStatus {
    /// The status that a wire name stands for.
    pub open spec fn named(name: Seq<char>) -> Option<BillingStatus> {
        if name == "PENDING"@ {
            Some(BillingStatus::PENDING)
        } else if name == "EXPIRED"@ {
            Some(BillingStatus::EXPIRED)
        } else if name == "CANCELLED"@ {
            Some(BillingStatus::CANCELLED)
        } else if name == "PAID"@ {
            Some(BillingStatus::PAID)
        } else if name == "REFUNDED"@ {
            Some(BillingStatus::REFUNDED)
        } else {
            None
        }
    }

    /// Reads a status from its wire name.
    pub fn from_name(name: &str) -> (r: Option<BillingStatus>)
        ensures
            r == Self::named(name@),
    {
        if same_text(name, "PENDING") {
            Some(BillingStatus::PENDING)
        } else if same_text(name, "EXPIRED") {
            Some(BillingStatus::EXPIRED)
        } else if same_text(name, "CANCELLED") {
            Some(BillingStatus::CANCELLED)
        } else if same_text(name, "PAID") {
            Some(BillingStatus::PAID)
        } else if same_text(name, "REFUNDED") {
            Some(BillingStatus::REFUNDED)
        } else {
            None
        }
    }
}

impl BillingMethods {
    /// The name of this method on the wire.
    pub open spec fn name(self) -> Seq<char> {
        "Pix"@
    }

    /// The method that a wire name stands for.
    pub open spec fn named(name: Seq<char>) -> Option<BillingMethods> {
        if name == "Pix"@ {
            Some(BillingMethods::Pix)
        } else {
            None
        }
    }

    /// Reads a method from its wire name.
    pub fn from_name(name: &str) -> (r: Option<BillingMethods>)
        ensures
            r == Self::named(name@),
    {
        if same_text(name, "Pix") {
            Some(BillingMethods::Pix)
        } else {
            None
        }
    }
}

impl BillingKind {
    /// The name of this frequency on the wire.
    pub open spec fn name(self) -> Seq<char> {
        "OneTime"@
    }

    /// The frequency that a wire name stands for.
    pub open spec fn named(name: Seq<char>) -> Option<BillingKind> {
        if name == "OneTime"@ {
            Some(BillingKind::OneTime)
        } else {
            None
        }
    }

    /// Reads a frequency from its wire name.
    pub fn from_name(name: &str) -> (r: Option<BillingKind>)
        ensures
            r == Self::named(name@),
    {
        if same_text(name, "OneTime") {
            Some(BillingKind::OneTime)
        } else {
            None
        }
    }
}

impl DeepView for BillingStatus {
    type V = BillingStatus;

    open spec fn deep_view(&self) -> BillingStatus {
        *self
    }
}

impl DeepView for BillingMethods {
    type V = BillingMethods;

    open spec fn deep_view(&self) -> BillingMethods {
        *self
    }
}

impl DeepView for BillingKind {
    type V = BillingKind;

    open spec fn deep_view(&self) -> BillingKind {
        *self
    }
}

impl FromJson for BillingStatus {
    open spec fn decoded(document: JsonValue) -> Option<BillingStatus> {
        if document is Text {
            Self::named(document->Text_0)
        } else {
            None
        }
    }

    fn from_json(value: &serde_json::Value) -> (r: Option<Self>) {
        match text_of(value) {
            Some(name) => Self::from_name(name),
            None => None,
        }
    }
}

impl FromJson for BillingMethods {
    open spec fn decoded(document: JsonValue) -> Option<BillingMethods> {
        if document is Text {
            Self::named(document->Text_0)
        } else {
            None
        }
    }

    fn from_json(value: &serde_json::Value) -> (r: Option<Self>) {
        match text_of(value) {
            Some(name) => Self::from_name(name),
            None => None,
        }
    }
}

impl FromJson for BillingKind {
    open spec fn decoded(document: JsonValue) -> Option<BillingKind> {
        if document is Text {
            Self::named(document->Text_0)
        } else {
            None
        }
    }

    fn from_json(value: &serde_json::Value) -> (r: Option<Self>) {
        match text_of(value) {
            Some(name) => Self::from_name(name),
            None => None,
        }
    }
}

#[derive(Debug, Clone, PartialEq, Eq)]
pub struct Metadata {
    pub fee: i64,
    pub return_url: String,
    pub completion_url: String,
}

pub struct MetadataView {
    pub fee: i64,
    pub return_url: Seq<char>,
    pub completion_url: Seq<char>,
}

impl DeepView for Metadata {
    type V = MetadataView;

    open spec fn deep_view(&self) -> MetadataView {
        MetadataView {
            fee: self.fee,
            return_url: self.return_url@,
            completion_url: self.completion_url@,
        }
    }
}

impl FromJson for Metadata {
    open spec fn decoded(document: JsonValue) -> Option<MetadataView> {
        if document.integer_at("fee"@) is Some && document.text_at("returnUrl"@) is Some
            && document.text_at("completionUrl"@) is Some {
            Some(
                MetadataView {
                    fee: document.integer_at("fee"@)->Some_0,
                    return_url: document.text_at("returnUrl"@)->Some_0,
                    completion_url: document.text_at("completionUrl"@)->Some_0,
                },
            )
        } else {
            None
        }
    }

    fn from_json(value: &serde_json::Value) -> (r: Option<Self>) {
        let fee = integer_field(value, "fee")?;
        let return_url = text_field(value, "returnUrl")?;
        let completion_url = text_field(value, "completionUrl")?;
        Some(Metadata { fee, return_url, completion_url })
    }
}

#[derive(Debug, Clone, PartialEq, Eq)]
pub struct Product {
    pub product_id: String,
    pub quantity: i64,
}

pub struct ProductView {
    pub product_id: Seq<char>,
    pub quantity: i64,
}

impl DeepView for Product {
    type V = ProductView;

    open spec fn deep_view(&self) -> ProductView {
        ProductView { product_id: self.product_id@, quantity: self.quantity }
    }
}

impl FromJson for Product {
    open spec fn decoded(document: JsonValue) -> Option<ProductView> {
        if document.text_at("productId"@) is Some && document.integer_at("quantity"@) is Some {
            Some(
                ProductView {
                    product_id: document.text_at("productId"@)->Some_0,
                    quantity: document.integer_at("quantity"@)->Some_0,
                },
            )
        } else {
            None
        }
    }

    fn from_json(value: &serde_json::Value) -> (r: Option<Self>) {
        let product_id = text_field(value, "productId")?;
        let quantity = integer_field(value, "quantity")?;
        Some(Product { product_id, quantity })
    }
}

#[derive(Debug, Clone, PartialEq, Eq)]
pub struct CustomerMetadata {
    pub name: String,
    pub cellphone: String,
    pub tax_id: String,
    pub email: String,
}

pub struct CustomerMetadataView {
    pub name: Seq<char>,
    pub cellphone: Seq<char>,
    pub tax_id: Seq<char>,
    pub email: Seq<char>,
}

impl DeepView for CustomerMetadata {
    type V = CustomerMetadataView;

    open spec fn deep_view(&self) -> CustomerMetadataView {
        CustomerMetadataView {
            name: self.name@,
            cellphone: self.cellphone@,
            tax_id: self.tax_id@,
            email: self.email@,
        }
    }
}

impl FromJson for CustomerMetadata {
    open spec fn decoded(document: JsonValue) -> Option<CustomerMetadataView> {
        if document.text_at("name"@) is Some && document.text_at("cellphone"@) is Some
            && document.text_at("taxId"@) is Some && document.text_at("email"@) is Some {
            Some(
                CustomerMetadataView {
                    name: document.text_at("name"@)->Some_0,
                    cellphone: document.text_at("cellphone"@)->Some_0,
                    tax_id: document.text_at("taxId"@)->Some_0,
                    email: document.text_at("email"@)->Some_0,
                },
            )
        } else {
            None
        }
    }

    fn from_json(value: &serde_json::Value) -> (r: Option<Self>) {
        let name = text_field(value, "name")?;
        let cellphone = text_field(value, "cellphone")?;
        let tax_id = text_field(value, "taxId")?;
        let email = text_field(value, "email")?;
        Some(CustomerMetadata { name, cellphone, tax_id, email })
    }
}

/// The customer that a billing points to, with the store's bookkeeping.
#[derive(Debug, Clone, PartialEq, Eq)]
pub struct CustomerId {
    pub metadata: CustomerMetadata,
    pub _id: String,
    pub public_id: String,
    pub store_id: String,
    pub dev_mode: bool,
    pub created_at: Timestamp,
    pub updated_at: Timestamp,
    pub __v: i64,
}

pub struct CustomerIdView {
    pub metadata: CustomerMetadataView,
    pub _id: Seq<char>,
    pub public_id: Seq<char>,
    pub store_id: Seq<char>,
    pub dev_mode: bool,
    pub created_at: Timestamp,
    pub updated_at: Timestamp,
    pub __v: i64,
}

impl DeepView for CustomerId {
    type V = CustomerIdView;

    open spec fn deep_view(&self) -> CustomerIdView {
        CustomerIdView {
            metadata: self.metadata.deep_view(),
            _id: self._id@,
            public_id: self.public_id@,
            store_id: self.store_id@,
            dev_mode: self.dev_mode,
            created_at: self.created_at,
            updated_at: self.updated_at,
            __v: self.__v,
        }
    }
}

impl FromJson for CustomerId {
    open spec fn decoded(document: JsonValue) -> Option<CustomerIdView> {
        if document.decoded_at::<CustomerMetadata>("metadata"@) is Some && document.text_at("id"@)
            is Some && document.text_at("publicId"@) is Some && document.text_at("storeId"@)
            is Some && document.boolean_at("devMode"@) is Some && document.instant_at(
            "createdAt"@,
        ) is Some && document.instant_at("updatedAt"@) is Some && document.integer_at("v"@)
            is Some {
            Some(
                CustomerIdView {
                    metadata: document.decoded_at::<CustomerMetadata>("metadata"@)->Some_0,
                    _id: document.text_at("id"@)->Some_0,
                    public_id: document.text_at("publicId"@)->Some_0,
                    store_id: document.text_at("storeId"@)->Some_0,
                    dev_mode: document.boolean_at("devMode"@)->Some_0,
                    created_at: document.instant_at("createdAt"@)->Some_0,
                    updated_at: document.instant_at("updatedAt"@)->Some_0,
                    __v: document.integer_at("v"@)->Some_0,
                },
            )
        } else {
            None
        }
    }

    fn from_json(value: &serde_json::Value) -> (r: Option<Self>) {
        let metadata = field::<CustomerMetadata>(value, "metadata")?;
        let _id = text_field(value, "id")?;
        let public_id = text_field(value, "publicId")?;
        let store_id = text_field(value, "storeId")?;
        let dev_mode = boolean_field(value, "devMode")?;
        let created_at = instant_field(value, "createdAt")?;
        let updated_at = instant_field(value, "updatedAt")?;
        let __v = integer_field(value, "v")?;
        Some(
            CustomerId {
                metadata,
                _id,
                public_id,
                store_id,
                dev_mode,
                created_at,
                updated_at,
                __v,
            },
        )
    }
}

#[derive(Debug, Clone, PartialEq, Eq)]
pub struct Customer {
    pub _id: String,
    pub metadata: CustomerMetadata,
}

pub struct CustomerView {
    pub _id: Seq<char>,
    pub metadata: CustomerMetadataView,
}

impl DeepView for Customer {
    type V = CustomerView;

    open spec fn deep_view(&self) -> CustomerView {
        CustomerView { _id: self._id@, metadata: self.metadata.deep_view() }
    }
}

impl FromJson for Customer {
    open spec fn decoded(document: JsonValue) -> Option<CustomerView> {
        if document.text_at("_id"@) is Some && document.decoded_at::<CustomerMetadata>(
            "metadata"@,
        ) is Some {
            Some(
                CustomerView {
                    _id: document.text_at("_id"@)->Some_0,
                    metadata: document.decoded_at::<CustomerMetadata>("metadata"@)->Some_0,
                },
            )
        } else {
            None
        }
    }

    fn from_json(value: &serde_json::Value) -> (r: Option<Self>) {
        let _id = text_field(value, "_id")?;
        let metadata = field::<CustomerMetadata>(value, "metadata")?;
        Some(Customer { _id, metadata })
    }
}

/// A billing as the API reports it.
#[derive(Debug, Clone, PartialEq, Eq)]
pub struct Billing {
    pub metadata: Metadata,
    pub _id: String,
    pub public_id: String,
    pub products: Vec<Product>,
    pub amount: i64,
    pub status: BillingStatus,
    pub dev_mode: bool,
    pub methods: Vec<BillingMethods>,
    pub frequency: BillingKind,
    pub created_at: Timestamp,
    pub update_at: Timestamp,
    pub __v: i64,
    pub url: String,
    pub id: String,
    pub customer_id: Option<CustomerId>,
    pub customer: Option<Customer>,
}

pub struct BillingView {
    pub metadata: MetadataView,
    pub _id: Seq<char>,
    pub public_id: Seq<char>,
    pub products: Seq<ProductView>,
    pub amount: i64,
    pub status: BillingStatus,
    pub dev_mode: bool,
    pub methods: Seq<BillingMethods>,
    pub frequency: BillingKind,
    pub created_at: Timestamp,
    pub update_at: Timestamp,
    pub __v: i64,
    pub url: Seq<char>,
    pub id: Seq<char>,
    pub customer_id: Option<CustomerIdView>,
    pub customer: Option<CustomerView>,
}

impl DeepView for Billing {
    type V = BillingView;

    open spec fn deep_view(&self) -> BillingView {
        BillingView {
            metadata: self.metadata.deep_view(),
            _id: self._id@,
            public_id: self.public_id@,
            products: self.products.deep_view(),
            amount: self.amount,
            status: self.status,
            dev_mode: self.dev_mode,
            methods: self.methods.deep_view(),
            frequency: self.frequency,
            created_at: self.created_at,
            update_at: self.update_at,
            __v: self.__v,
            url: self.url@,
            id: self.id@,
            customer_id: self.customer_id.deep_view(),
            customer: self.customer.deep_view(),
        }
    }
}

impl Billing {
    /// Whether `document` has every member of a billing, each of the right
    /// kind. Members it has beyond those are of no account.
    pub open spec fn shaped(document: JsonValue) -> bool {
        &&& document.decoded_at::<Metadata>("metadata"@) is Some
        &&& document.text_at("pId"@) is Some
        &&& document.text_at("publicId"@) is Some
        &&& document.decoded_at::<Vec<Product>>("products"@) is Some
        &&& document.integer_at("amount"@) is Some
        &&& document.decoded_at::<BillingStatus>("status"@) is Some
        &&& document.boolean_at("devMode"@) is Some
        &&& document.decoded_at::<Vec<BillingMethods>>("methods"@) is Some
        &&& document.decoded_at::<BillingKind>("frequency"@) is Some
        &&& document.instant_at("createdAt"@) is Some
        &&& document.instant_at("updateAt"@) is Some
        &&& document.integer_at("v"@) is Some
        &&& document.text_at("url"@) is Some
        &&& document.text_at("id"@) is Some
        &&& document.optional_at::<CustomerId>("customerId"@) is Some
        &&& document.optional_at::<Customer>("customer"@) is Some
    }
}

impl FromJson for Billing {
    open spec fn decoded(document: JsonValue) -> Option<BillingView> {
        if Self::shaped(document) {
            Some(
                BillingView {
                    metadata: document.decoded_at::<Metadata>("metadata"@)->Some_0,
                    _id: document.text_at("pId"@)->Some_0,
                    public_id: document.text_at("publicId"@)->Some_0,
                    products: document.decoded_at::<Vec<Product>>("products"@)->Some_0,
                    amount: document.integer_at("amount"@)->Some_0,
                    status: document.decoded_at::<BillingStatus>("status"@)->Some_0,
                    dev_mode: document.boolean_at("devMode"@)->Some_0,
                    methods: document.decoded_at::<Vec<BillingMethods>>("methods"@)->Some_0,
                    frequency: document.decoded_at::<BillingKind>("frequency"@)->Some_0,
                    created_at: document.instant_at("createdAt"@)->Some_0,
                    update_at: document.instant_at("updateAt"@)->Some_0,
                    __v: document.integer_at("v"@)->Some_0,
                    url: document.text_at("url"@)->Some_0,
                    id: document.text_at("id"@)->Some_0,
                    customer_id: document.optional_at::<CustomerId>("customerId"@)->Some_0,
                    customer: document.optional_at::<Customer>("customer"@)->Some_0,
                },
            )
        } else {
            None
        }
    }

    fn from_json(value: &serde_json::Value) -> (r: Option<Self>) {
        let metadata = field::<Metadata>(value, "metadata")?;
        let _id = text_field(value, "pId")?;
        let public_id = text_field(value, "publicId")?;
        let products = field::<Vec<Product>>(value, "products")?;
        let amount = integer_field(value, "amount")?;
        let status = field::<BillingStatus>(value, "status")?;
        let dev_mode = boolean_field(value, "devMode")?;
        let methods = field::<Vec<BillingMethods>>(value, "methods")?;
        let frequency = field::<BillingKind>(value, "frequency")?;
        let created_at = instant_field(value, "createdAt")?;
        let update_at = instant_field(value, "updateAt")?;
        let __v = integer_field(value, "v")?;
        let url = text_field(value, "url")?;
        let id = text_field(value, "id")?;
        let customer_id = optional_field::<CustomerId>(value, "customerId")?;
        let customer = optional_field::<Customer>(value, "customer")?;
        Some(
            Billing {
                metadata,
                _id,
                public_id,
                products,
                amount,
                status,
                dev_mode,
                methods,
                frequency,
                created_at,
                update_at,
                __v,
                url,
                id,
                customer_id,
                customer,
            },
        )
    }
}

/// One line of a new billing. `price` is the unit price in the currency's
/// smallest unit.
#[derive(Debug, Clone, PartialEq, Eq)]
pub struct CreateBillingProduct {
    pub external_id: String,
    pub name: String,
    pub quantity: i64,
    pub price: i64,
    pub description: Option<String>,
}

pub struct CreateBillingProductView {
    pub external_id: Seq<char>,
    pub name: Seq<char>,
    pub quantity: i64,
    pub price: i64,
    pub description: Option<Seq<char>>,
}

impl DeepView for CreateBillingProduct {
    type V = CreateBillingProductView;

    open spec fn deep_view(&self) -> CreateBillingProductView {
        CreateBillingProductView {
            external_id: self.external_id@,
            name: self.name@,
            quantity: self.quantity,
            price: self.price,
            description: self.description.deep_view(),
        }
    }
}

impl FromJson for CreateBillingProduct {
    open spec fn decoded(document: JsonValue) -> Option<CreateBillingProductView> {
        if document.text_at("externalId"@) is Some && document.text_at("name"@) is Some
            && document.integer_at("quantity"@) is Some && document.integer_at("price"@) is Some
            && document.optional_text_at("description"@) is Some {
            Some(
                CreateBillingProductView {
                    external_id: document.text_at("externalId"@)->Some_0,
                    name: document.text_at("name"@)->Some_0,
                    quantity: document.integer_at("quantity"@)->Some_0,
                    price: document.integer_at("price"@)->Some_0,
                    description: document.optional_text_at("description"@)->Some_0,
                },
            )
        } else {
            None
        }
    }

    fn from_json(value: &serde_json::Value) -> (r: Option<Self>) {
        let external_id = text_field(value, "externalId")?;
        let name = text_field(value, "name")?;
        let quantity = integer_field(value, "quantity")?;
        let price = integer_field(value, "price")?;
        let description = optional_text_field(value, "description")?;
        Some(CreateBillingProduct { external_id, name, quantity, price, description })
    }
}

/// What a new billing is asked with.
#[derive(Debug, Clone, PartialEq, Eq)]
pub struct CreateBillingData {
    pub frequency: BillingKind,
    pub methods: Vec<BillingMethods>,
    pub products: Vec<CreateBillingProduct>,
    pub return_url: String,
    pub completion_url: String,
    pub customer_id: Option<String>,
}

pub struct CreateBillingDataView {
    pub frequency: BillingKind,
    pub methods: Seq<BillingMethods>,
    pub products: Seq<CreateBillingProductView>,
    pub return_url: Seq<char>,
    pub completion_url: Seq<char>,
    pub customer_id: Option<Seq<char>>,
}

impl DeepView for CreateBillingData {
    type V = CreateBillingDataView;

    open spec fn deep_view(&self) -> CreateBillingDataView {
        CreateBillingDataView {
            frequency: self.frequency,
            methods: self.methods.deep_view(),
            products: self.products.deep_view(),
            return_url: self.return_url@,
            completion_url: self.completion_url@,
            customer_id: self.customer_id.deep_view(),
        }
    }
}

impl FromJson for CreateBillingData {
    open spec fn decoded(document: JsonValue) -> Option<CreateBillingDataView> {
        if document.decoded_at::<BillingKind>("frequency"@) is Some && document.decoded_at::<
            Vec<BillingMethods>,
        >("methods"@) is Some && document.decoded_at::<Vec<CreateBillingProduct>>("products"@)
            is Some && document.text_at("returnUrl"@) is Some && document.text_at(
            "completionUrl"@,
        ) is Some && document.optional_text_at("customerId"@) is Some {
            Some(
                CreateBillingDataView {
                    frequency: document.decoded_at::<BillingKind>("frequency"@)->Some_0,
                    methods: document.decoded_at::<Vec<BillingMethods>>("methods"@)->Some_0,
                    products: document.decoded_at::<Vec<CreateBillingProduct>>(
                        "products"@,
                    )->Some_0,
                    return_url: document.text_at("returnUrl"@)->Some_0,
                    completion_url: document.text_at("completionUrl"@)->Some_0,
                    customer_id: document.optional_text_at("customerId"@)->Some_0,
                },
            )
        } else {
            None
        }
    }

    fn from_json(value: &serde_json::Value) -> (r: Option<Self>) {
        let frequency = field::<BillingKind>(value, "frequency")?;
        let methods = field::<Vec<BillingMethods>>(value, "methods")?;
        let products = field::<Vec<CreateBillingProduct>>(value, "products")?;
        let return_url = text_field(value, "returnUrl")?;
        let completion_url = text_field(value, "completionUrl")?;
        let customer_id = optional_text_field(value, "customerId")?;
        Some(
            CreateBillingData {
                frequency,
                methods,
                products,
                return_url,
                completion_url,
                customer_id,
            },
        )
    }
}

/// The answer to creating a billing, as it arrives.
#[derive(Debug, Clone, PartialEq, Eq)]
pub enum CreateBillingResponse {
    Success { billing: Billing },
    Error { error: String, message: String, code: String },
}

impl DeepView for CreateBillingResponse {
    type V = EnvelopeView<BillingView>;

    open spec fn deep_view(&self) -> EnvelopeView<BillingView> {
        match self {
            CreateBillingResponse::Success { billing } => EnvelopeView::Success(
                billing.deep_view(),
            ),
            CreateBillingResponse::Error { error, message, code } => EnvelopeView::Error(
                ErrorResponseView { error: error@, message: message@, code: code@ },
            ),
        }
    }
}

impl FromJson for CreateBillingResponse {
    open spec fn decoded(document: JsonValue) -> Option<EnvelopeView<BillingView>> {
        envelope_of::<Billing>(document, "billing"@)
    }

    fn from_json(value: &serde_json::Value) -> (r: Option<Self>) {
        match read_envelope::<Billing>(value, "billing") {
            Some(Ok(billing)) => Some(CreateBillingResponse::Success { billing }),
            Some(Err(ErrorResponse { error, message, code })) => Some(
                CreateBillingResponse::Error { error, message, code },
            ),
            None => None,
        }
    }
}

impl CreateBillingResponse {
    /// The caller's result for this answer when it came with the HTTP status
    /// `status`: the billing, or the API's error under that status.
    pub fn into_result(self, status: u16) -> (r: Result<Billing, AbacatePayError>)
        ensures
            result_view(r) == self.deep_view().outcome(status),
    {
        match self {
            CreateBillingResponse::Success { billing } => Ok(billing),
            CreateBillingResponse::Error { error, message, code } => Err(
                AbacatePayError::ApiError { status, error, message, code },
            ),
        }
    }
}

/// The answer to listing the billings, as it arrives.
#[derive(Debug, Clone, PartialEq, Eq)]
pub enum ListBillingResponse {
    Success { billings: Vec<Billing> },
    Error { error: String, message: String, code: String },
}

impl DeepView for ListBillingResponse {
    type V = EnvelopeView<Seq<BillingView>>;

    open spec fn deep_view(&self) -> EnvelopeView<Seq<BillingView>> {
        match self {
            ListBillingResponse::Success { billings } => EnvelopeView::Success(
                billings.deep_view(),
            ),
            ListBillingResponse::Error { error, message, code } => EnvelopeView::Error(
                ErrorResponseView { error: error@, message: message@, code: code@ },
            ),
        }
    }
}

impl FromJson for ListBillingResponse {
    open spec fn decoded(document: JsonValue) -> Option<EnvelopeView<Seq<BillingView>>> {
        envelope_of::<Vec<Billing>>(document, "billings"@)
    }

    fn from_json(value: &serde_json::Value) -> (r: Option<Self>) {
        match read_envelope::<Vec<Billing>>(value, "billings") {
            Some(Ok(billings)) => Some(ListBillingResponse::Success { billings }),
            Some(Err(ErrorResponse { error, message, code })) => Some(
                ListBillingResponse::Error { error, message, code },
            ),
            None => None,
        }
    }
}

impl ListBillingResponse {
    /// The caller's result for this answer when it came with the HTTP status
    /// `status`: the billings, or the API's error under that status.
    pub fn into_result(self, status: u16) -> (r: Result<Vec<Billing>, AbacatePayError>)
        ensures
            result_view(r) == self.deep_view().outcome(status),
    {
        match self {
            ListBillingResponse::Success { billings } => Ok(billings),
            ListBillingResponse::Error { error, message, code } => Err(
                AbacatePayError::ApiError { status, error, message, code },
            ),
        }
    }
}

} // verus!

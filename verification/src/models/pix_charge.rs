//! PIX charges: the payload that asks for one, the charge as the API reports
//! it, and the answer to a status check.

use vstd::prelude::*;
use crate::decode::{
    boolean_field, field, instant_field, integer_field, optional_field, optional_text_field,
    optional_unsigned_field, text_field, FromJson,
};
use crate::envelope::{envelope_of, read_envelope, result_view, EnvelopeView};
use crate::error::{AbacatePayError, ErrorResponse, ErrorResponseView};
use crate::json::{text_of, JsonValue};
use crate::models::{CustomerMetadata, CustomerMetadataView};
use crate::text::same_text;
use crate::time::Timestamp;

verus! {

/// Where a PIX charge stands.
#[derive(Debug, PartialEq, Eq, Clone, Copy, Structural)]
pub enum PixStatus {
    PENDING,
    EXPIRED,
    CANCELLED,
    PAID,
    REFUNDED,
}

impl PixStatus {
    /// The status that a wire name stands for.
    pub open spec fn named(name: Seq<char>) -> Option<PixStatus> {
        if name == "PENDING"@ {
            Some(PixStatus::PENDING)
        } else if name == "EXPIRED"@ {
            Some(PixStatus::EXPIRED)
        } else if name == "CANCELLED"@ {
            Some(PixStatus::CANCELLED)
        } else if name == "PAID"@ {
            Some(PixStatus::PAID)
        } else if name == "REFUNDED"@ {
            Some(PixStatus::REFUNDED)
        } else {
            None
        }
    }

    /// Reads a status from its wire name.
    pub fn from_name(name: &str) -> (r: Option<PixStatus>)
        ensures
            r == Self::named(name@),
    {
        if same_text(name, "PENDING") {
            Some(PixStatus::PENDING)
        } else if same_text(name, "EXPIRED") {
            Some(PixStatus::EXPIRED)
        } else if same_text(name, "CANCELLED") {
            Some(PixStatus::CANCELLED)
        } else if same_text(name, "PAID") {
            Some(PixStatus::PAID)
        } else if same_text(name, "REFUNDED") {
            Some(PixStatus::REFUNDED)
        } else {
            None
        }
    }
}

impl DeepView for PixStatus {
    type V = PixStatus;

    open spec fn deep_view(&self) -> PixStatus {
        *self
    }
}

impl FromJson for PixStatus {
    open spec fn decoded(document: JsonValue) -> Option<PixStatus> {
        if document is Text {
            Self::named(document->Text_0)
        } else {
            None
        }
    }

    fn from_json(value: &serde_json::Value) -> (r: Option<Self>) {
        match text_of(value) {
            Some(name) => Self::from_name(name),
            None => None,
        }
    }
}

/// A PIX charge as the API reports it.
#[derive(Debug, Clone, PartialEq, Eq)]
pub struct PixChargeData {
    pub amount: i64,
    pub status: String,
    pub dev_mode: bool,
    pub method: String,
    pub br_code: String,
    pub br_code_base64: String,
    pub platform_fee: i64,
    pub created_at: String,
    pub updated_at: String,
    pub expires_at: String,
    pub id: String,
}

pub struct PixChargeDataView {
    pub amount: i64,
    pub status: Seq<char>,
    pub dev_mode: bool,
    pub method: Seq<char>,
    pub br_code: Seq<char>,
    pub br_code_base64: Seq<char>,
    pub platform_fee: i64,
    pub created_at: Seq<char>,
    pub updated_at: Seq<char>,
    pub expires_at: Seq<char>,
    pub id: Seq<char>,
}

impl DeepView for PixChargeData {
    type V = PixChargeDataView;

    open spec fn deep_view(&self) -> PixChargeDataView {
        PixChargeDataView {
            amount: self.amount,
            status: self.status@,
            dev_mode: self.dev_mode,
            method: self.method@,
            br_code: self.br_code@,
            br_code_base64: self.br_code_base64@,
            platform_fee: self.platform_fee,
            created_at: self.created_at@,
            updated_at: self.updated_at@,
            expires_at: self.expires_at@,
            id: self.id@,
        }
    }
}

impl PixChargeData {
    /// Whether `document` has every member of a charge, each of the right
    /// kind. Members it has beyond those are of no account.
    pub open spec fn shaped(document: JsonValue) -> bool {
        &&& document.integer_at("amount"@) is Some
        &&& document.text_at("status"@) is Some
        &&& document.boolean_at("devMode"@) is Some
        &&& document.text_at("method"@) is Some
        &&& document.text_at("brCode"@) is Some
        &&& document.text_at("brCodeBase64"@) is Some
        &&& document.integer_at("platformFee"@) is Some
        &&& document.text_at("createdAt"@) is Some
        &&& document.text_at("updatedAt"@) is Some
        &&& document.text_at("expiresAt"@) is Some
        &&& document.text_at("id"@) is Some
    }
}

impl FromJson for PixChargeData {
    open spec fn decoded(document: JsonValue) -> Option<PixChargeDataView> {
        if Self::shaped(document) {
            Some(
                PixChargeDataView {
                    amount: document.integer_at("amount"@)->Some_0,
                    status: document.text_at("status"@)->Some_0,
                    dev_mode: document.boolean_at("devMode"@)->Some_0,
                    method: document.text_at("method"@)->Some_0,
                    br_code: document.text_at("brCode"@)->Some_0,
                    br_code_base64: document.text_at("brCodeBase64"@)->Some_0,
                    platform_fee: document.integer_at("platformFee"@)->Some_0,
                    created_at: document.text_at("createdAt"@)->Some_0,
                    updated_at: document.text_at("updatedAt"@)->Some_0,
                    expires_at: document.text_at("expiresAt"@)->Some_0,
                    id: document.text_at("id"@)->Some_0,
                },
            )
        } else {
            None
        }
    }

    fn from_json(value: &serde_json::Value) -> (r: Option<Self>) {
        let amount = integer_field(value, "amount")?;
        let status = text_field(value, "status")?;
        let dev_mode = boolean_field(value, "devMode")?;
        let method = text_field(value, "method")?;
        let br_code = text_field(value, "brCode")?;
        let br_code_base64 = text_field(value, "brCodeBase64")?;
        let platform_fee = integer_field(value, "platformFee")?;
        let created_at = text_field(value, "createdAt")?;
        let updated_at = text_field(value, "updatedAt")?;
        let expires_at = text_field(value, "expiresAt")?;
        let id = text_field(value, "id")?;
        Some(
            PixChargeData {
                amount,
                status,
                dev_mode,
                method,
                br_code,
                br_code_base64,
                platform_fee,
                created_at,
                updated_at,
                expires_at,
                id,
            },
        )
    }
}

/// The answer to a status check: where the charge stands and when it runs
/// out.
#[derive(Debug, Clone, Copy, PartialEq, Eq, Structural)]
pub struct CheckPixStatusData {
    pub status: PixStatus,
    pub expires_at: Timestamp,
}

impl DeepView for CheckPixStatusData {
    type V = CheckPixStatusData;

    open spec fn deep_view(&self) -> CheckPixStatusData {
        *self
    }
}

impl FromJson for CheckPixStatusData {
    open spec fn decoded(document: JsonValue) -> Option<CheckPixStatusData> {
        if document.decoded_at::<PixStatus>("status"@) is Some && document.instant_at(
            "expiresAt"@,
        ) is Some {
            Some(
                CheckPixStatusData {
                    status: document.decoded_at::<PixStatus>("status"@)->Some_0,
                    expires_at: document.instant_at("expiresAt"@)->Some_0,
                },
            )
        } else {
            None
        }
    }

    fn from_json(value: &serde_json::Value) -> (r: Option<Self>) {
        let status = field::<PixStatus>(value, "status")?;
        let expires_at = instant_field(value, "expiresAt")?;
        Some(CheckPixStatusData { status, expires_at })
    }
}

/// What a new PIX charge is asked with. `amount` counts the currency's
/// smallest unit; `expires_in` counts seconds.
#[derive(Debug, Clone, PartialEq, Eq)]
pub struct CreatePixChargeData {
    pub amount: i64,
    pub expires_in: Option<u64>,
    pub description: Option<String>,
    pub customer: Option<CustomerMetadata>,
}

pub struct CreatePixChargeDataView {
    pub amount: i64,
    pub expires_in: Option<u64>,
    pub description: Option<Seq<char>>,
    pub customer: Option<CustomerMetadataView>,
}

impl DeepView for CreatePixChargeData {
    type V = CreatePixChargeDataView;

    open spec fn deep_view(&self) -> CreatePixChargeDataView {
        CreatePixChargeDataView {
            amount: self.amount,
            expires_in: self.expires_in,
            description: self.description.deep_view(),
            customer: self.customer.deep_view(),
        }
    }
}

impl FromJson for CreatePixChargeData {
    open spec fn decoded(document: JsonValue) -> Option<CreatePixChargeDataView> {
        if document.integer_at("amount"@) is Some && document.optional_unsigned_at("expiresIn"@)
            is Some && document.optional_text_at("description"@) is Some
            && document.optional_at::<CustomerMetadata>("customer"@) is Some {
            Some(
                CreatePixChargeDataView {
                    amount: document.integer_at("amount"@)->Some_0,
                    expires_in: document.optional_unsigned_at("expiresIn"@)->Some_0,
                    description: document.optional_text_at("description"@)->Some_0,
                    customer: document.optional_at::<CustomerMetadata>("customer"@)->Some_0,
                },
            )
        } else {
            None
        }
    }

    fn from_json(value: &serde_json::Value) -> (r: Option<Self>) {
        let amount = integer_field(value, "amount")?;
        let expires_in = optional_unsigned_field(value, "expiresIn")?;
        let description = optional_text_field(value, "description")?;
        let customer = optional_field::<CustomerMetadata>(value, "customer")?;
        Some(CreatePixChargeData { amount, expires_in, description, customer })
    }
}

/// The answer to a status check, as it arrives.
#[derive(Debug, Clone, PartialEq, Eq)]
pub enum CheckPixStatusResponse {
    Success { data: CheckPixStatusData },
    Error { error: String, message: String, code: String },
}

impl DeepView for CheckPixStatusResponse {
    type V = EnvelopeView<CheckPixStatusData>;

    open spec fn deep_view(&self) -> EnvelopeView<CheckPixStatusData> {
        match self {
            CheckPixStatusResponse::Success { data } => EnvelopeView::Success(*data),
            CheckPixStatusResponse::Error { error, message, code } => EnvelopeView::Error(
                ErrorResponseView { error: error@, message: message@, code: code@ },
            ),
        }
    }
}

impl FromJson for CheckPixStatusResponse {
    open spec fn decoded(document: JsonValue) -> Option<EnvelopeView<CheckPixStatusData>> {
        envelope_of::<CheckPixStatusData>(document, "data"@)
    }

    fn from_json(value: &serde_json::Value) -> (r: Option<Self>) {
        match read_envelope::<CheckPixStatusData>(value, "data") {
            Some(Ok(data)) => Some(CheckPixStatusResponse::Success { data }),
            Some(Err(ErrorResponse { error, message, code })) => Some(
                CheckPixStatusResponse::Error { error, message, code },
            ),
            None => None,
        }
    }
}

impl CheckPixStatusResponse {
    /// The caller's result for this answer when it came with the HTTP status
    /// `status`: the status data, or the API's error under that status.
    pub fn into_result(self, status: u16) -> (r: Result<CheckPixStatusData, AbacatePayError>)
        ensures
            result_view(r) == self.deep_view().outcome(status),
    {
        match self {
            CheckPixStatusResponse::Success { data } => Ok(data),
            CheckPixStatusResponse::Error { error, message, code } => Err(
                AbacatePayError::ApiError { status, error, message, code },
            ),
        }
    }
}

/// The answer to creating a charge or simulating its payment, as it
/// arrives.
#[derive(Debug, Clone, PartialEq, Eq)]
pub enum PixChargeResponse {
    Success { data: PixChargeData },
    Error { error: String, message: String, code: String },
}

impl DeepView for PixChargeResponse {
    type V = EnvelopeView<PixChargeDataView>;

    open spec fn deep_view(&self) -> EnvelopeView<PixChargeDataView> {
        match self {
            PixChargeResponse::Success { data } => EnvelopeView::Success(data.deep_view()),
            PixChargeResponse::Error { error, message, code } => EnvelopeView::Error(
                ErrorResponseView { error: error@, message: message@, code: code@ },
            ),
        }
    }
}

impl FromJson for PixChargeResponse {
    open spec fn decoded(document: JsonValue) -> Option<EnvelopeView<PixChargeDataView>> {
        envelope_of::<PixChargeData>(document, "data"@)
    }

    fn from_json(value: &serde_json::Value) -> (r: Option<Self>) {
        match read_envelope::<PixChargeData>(value, "data") {
            Some(Ok(data)) => Some(PixChargeResponse::Success { data }),
            Some(Err(ErrorResponse { error, message, code })) => Some(
                PixChargeResponse::Error { error, message, code },
            ),
            None => None,
        }
    }
}

impl PixChargeResponse {
    /// The caller's result for this answer when it came with the HTTP status
    /// `status`: the charge, or the API's error under that status.
    pub fn into_result(self, status: u16) -> (r: Result<PixChargeData, AbacatePayError>)
        ensures
            result_view(r) == self.deep_view().outcome(status),
    {
        match self {
            PixChargeResponse::Success { data } => Ok(data),
            PixChargeResponse::Error { error, message, code } => Err(
                AbacatePayError::ApiError { status, error, message, code },
            ),
        }
    }
}

} // verus!

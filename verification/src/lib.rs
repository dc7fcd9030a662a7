//! Client-side logic for the AbacatePay billing and PIX API: request
//! assembly, response decoding and error classification.
//!
//! The library does no I/O. An operation gives the request to send as a
//! plain value; the caller sends it and hands back how the exchange ended;
//! the library turns that into a typed result or exactly one kind of error.

pub mod builders;
pub mod client;
pub mod decode;
pub mod encode;
pub mod envelope;
pub mod error;
pub mod http;
pub mod json;
pub mod models;
pub mod resolver;
pub mod text;
pub mod time;

pub use builders::{
    BillingBuilder, CheckPixStatusBuilder, PixChargeBuilder, SimulatePixPaymentBuilder,
};
pub use client::AbacatePay;
pub use error::{AbacatePayError, ErrorResponse};
pub use http::{Exchange, HttpRequest, Method};
pub use models::pix_charge::{
    CheckPixStatusData, CheckPixStatusResponse, CreatePixChargeData, PixChargeData,
    PixChargeResponse, PixStatus,
};
pub use models::{
    Billing, BillingKind, BillingMethods, BillingStatus, CreateBillingData, CreateBillingProduct,
    CreateBillingResponse, Customer, CustomerId, CustomerMetadata, ListBillingResponse, Metadata,
    Product,
};
pub use time::Timestamp;

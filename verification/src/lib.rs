//! Adapter between a payment platform's domain model and the Mollie
//! payment provider's wire protocol: outbound payment-request
//! construction and inbound payment-response interpretation.

pub mod amount;
pub mod auth;
pub mod domain;
pub mod redirect;
pub mod refunds;
pub mod request;
pub mod response;
pub mod status;
pub mod strutil;
pub mod urlparse;

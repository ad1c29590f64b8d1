//! The platform-side (domain) data model that this adapter translates
//! from and into: the authorize intent, the auth-method union, the
//! canonical attempt and refund statuses, and the adapter's error kinds.

use vstd::prelude::*;

verus! {

/// The domain authorize-payment intent handed to the request builder.
#[derive(Debug, Clone)]
pub struct PaymentsAuthorizeData {
    /// ISO 4217 currency code.
    pub currency: String,
    /// Integral amount in major units.
    pub amount: i64,
    /// Optional human-readable description.
    pub description: Option<String>,
    /// Optional URL the customer should be returned to after interaction.
    pub return_url: Option<String>,
}

/// The domain refund intent handed to the refund-request builder.
#[derive(Debug, Clone)]
pub struct RefundsData {
    /// Integral refund amount in major units.
    pub refund_amount: i64,
    /// Optional reason for the refund.
    pub reason: Option<String>,
    /// Identifier of the payment being refunded, as the provider knows it.
    pub connector_transaction_id: String,
}

/// The platform's generic auth-method union. Only the header-key
/// variant carries a credential this provider accepts.
#[derive(Debug, Clone)]
pub enum ConnectorAuthType {
    HeaderKey { api_key: String },
    BodyKey { api_key: String, key1: String },
    SignatureKey { api_key: String, key1: String, api_secret: String },
    MultiAuthKey { api_key: String, key1: String, api_secret: String, key2: String },
    NoKey,
}

/// The platform's canonical payment-attempt status.
#[derive(Debug, Clone, Copy, PartialEq, Eq, Structural)]
pub enum AttemptStatus {
    AuthenticationPending,
    Pending,
    Authorized,
    Charged,
    Voided,
    VoidFailed,
    Failure,
}

/// The platform's canonical refund status.
#[derive(Debug, Clone, Copy, PartialEq, Eq, Structural)]
pub enum RefundStatus {
    Success,
    Failure,
    Pending,
}

/// The adapter's error kinds. Every failure is reported to the caller
/// as a typed value; no path aborts the process.
#[derive(Debug, Clone, PartialEq, Eq)]
pub enum ConnectorError {
    /// The auth value is not the expected header-key variant.
    FailedToObtainAuthType,
    /// A provider-returned URL could not be parsed; the offending value
    /// is attached for diagnostics.
    ResponseHandlingFailed { value: String },
    /// A refund transformation path that is not yet defined.
    NotImplemented,
}

} // verus!

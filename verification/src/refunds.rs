//! The refund lifecycle: request building, status mapping, and refund
//! response interpretation. The provider's refund payload shapes are
//! not yet defined, so the builder and the interpreters fail explicitly
//! with `NotImplemented` instead of aborting.

use vstd::prelude::*;
use crate::domain;
use crate::domain::{ConnectorError, RefundsData};

verus! {

/// The outbound refund-creation payload. Its wire shape is not yet
/// defined; no field exists yet.
#[derive(Debug, Clone, PartialEq, Eq, Structural)]
pub struct MollieRefundRequest {}

/// The provider-side refund lifecycle state.
#[derive(Debug, Clone, Copy, PartialEq, Eq, Structural)]
pub enum RefundStatus {
    Succeeded,
    Failed,
    Processing,
}

/// The inbound provider refund record. Its wire shape is not yet
/// defined; no field exists yet.
#[derive(Debug, Clone, PartialEq, Eq, Structural)]
pub struct RefundResponse {}

/// The platform-side outcome of a refund attempt.
#[derive(Debug, Clone, PartialEq, Eq)]
pub struct RefundsResult {
    pub connector_refund_id: String,
    pub refund_status: domain::RefundStatus,
}

/// The fixed refund-status mapping from provider state to platform state.
pub open spec fn spec_refund_status(s: RefundStatus) -> domain::RefundStatus {
    match s {
        RefundStatus::Succeeded => domain::RefundStatus::Success,
        RefundStatus::Failed => domain::RefundStatus::Failure,
        RefundStatus::Processing => domain::RefundStatus::Pending,
    }
}

impl domain::RefundStatus {
    /// Maps a provider refund status onto the platform's refund status;
    /// the mapping is total over the provider's closed set.
    pub fn from(item: RefundStatus) -> (r: domain::RefundStatus)
        ensures
            r == spec_refund_status(item),
    {
        match item {
            RefundStatus::Succeeded => domain::RefundStatus::Success,
            RefundStatus::Failed => domain::RefundStatus::Failure,
            RefundStatus::Processing => domain::RefundStatus::Pending,
        }
    }
}

impl MollieRefundRequest {
    /// Builds the outbound refund request. The provider's refund payload
    /// is not yet defined, so every input fails with `NotImplemented`.
    pub fn try_from(_item: &RefundsData) -> (r: Result<MollieRefundRequest, ConnectorError>)
        ensures
            r matches Err(e) && e == ConnectorError::NotImplemented,
    {
        Err(ConnectorError::NotImplemented)
    }
}

impl RefundsResult {
    /// Interprets a provider refund record for refund issuance. The
    /// record's shape is not yet defined, so every input fails with
    /// `NotImplemented`.
    pub fn try_from_execute(_item: RefundResponse) -> (r: Result<RefundsResult, ConnectorError>)
        ensures
            r matches Err(e) && e == ConnectorError::NotImplemented,
    {
        Err(ConnectorError::NotImplemented)
    }

    /// Interprets a provider refund record for refund-status polling.
    /// The record's shape is not yet defined, so every input fails with
    /// `NotImplemented`.
    pub fn try_from_sync(_item: RefundResponse) -> (r: Result<RefundsResult, ConnectorError>)
        ensures
            r matches Err(e) && e == ConnectorError::NotImplemented,
    {
        Err(ConnectorError::NotImplemented)
    }
}

} // verus!

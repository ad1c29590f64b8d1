//! The provider's payment-status enum, its wire decoding, and the total
//! mapping onto the platform's attempt status.

use vstd::prelude::*;
use crate::domain::AttemptStatus;
use crate::strutil::str_eq;

verus! {

/// The provider-side payment lifecycle state. The set is closed: a wire
/// value outside it fails to decode rather than defaulting silently.
#[derive(Debug, Clone, Copy, PartialEq, Eq, Structural)]
pub enum MolliePaymentStatus {
    Open,
    Canceled,
    Pending,
    Authorized,
    Expired,
    Failed,
    Paid,
}

/// The status a wire string decodes to: exactly the seven lowercase
/// spellings are recognized, everything else is rejected.
pub open spec fn spec_status_from_wire(s: Seq<char>) -> Option<MolliePaymentStatus> {
    if s == "open"@ {
        Some(MolliePaymentStatus::Open)
    } else if s == "canceled"@ {
        Some(MolliePaymentStatus::Canceled)
    } else if s == "pending"@ {
        Some(MolliePaymentStatus::Pending)
    } else if s == "authorized"@ {
        Some(MolliePaymentStatus::Authorized)
    } else if s == "expired"@ {
        Some(MolliePaymentStatus::Expired)
    } else if s == "failed"@ {
        Some(MolliePaymentStatus::Failed)
    } else if s == "paid"@ {
        Some(MolliePaymentStatus::Paid)
    } else {
        None
    }
}

impl MolliePaymentStatus {
    /// Decodes a wire status string by an explicit lookup over the seven
    /// recognized lowercase spellings; an unrecognized string is rejected.
    pub fn from_wire(s: &str) -> (r: Option<MolliePaymentStatus>)
        ensures
            r == spec_status_from_wire(s@),
    {
        if str_eq(s, "open") {
            Some(MolliePaymentStatus::Open)
        } else if str_eq(s, "canceled") {
            Some(MolliePaymentStatus::Canceled)
        } else if str_eq(s, "pending") {
            Some(MolliePaymentStatus::Pending)
        } else if str_eq(s, "authorized") {
            Some(MolliePaymentStatus::Authorized)
        } else if str_eq(s, "expired") {
            Some(MolliePaymentStatus::Expired)
        } else if str_eq(s, "failed") {
            Some(MolliePaymentStatus::Failed)
        } else if str_eq(s, "paid") {
            Some(MolliePaymentStatus::Paid)
        } else {
            None
        }
    }

    /// Applies the wire decoder's defaulting rule explicitly: a payload
    /// with no status field stands for `Pending`.
    pub fn or_default(s: Option<MolliePaymentStatus>) -> (r: MolliePaymentStatus)
        ensures
            r == (match s {
                Some(v) => v,
                None => MolliePaymentStatus::Pending,
            }),
    {
        match s {
            Some(v) => v,
            None => MolliePaymentStatus::Pending,
        }
    }
}

/// The total status mapping from provider state to platform state.
pub open spec fn spec_attempt_status(s: MolliePaymentStatus) -> AttemptStatus {
    match s {
        MolliePaymentStatus::Open => AttemptStatus::AuthenticationPending,
        MolliePaymentStatus::Canceled => AttemptStatus::Voided,
        MolliePaymentStatus::Pending => AttemptStatus::Pending,
        MolliePaymentStatus::Authorized => AttemptStatus::Authorized,
        MolliePaymentStatus::Expired => AttemptStatus::VoidFailed,
        MolliePaymentStatus::Failed => AttemptStatus::Failure,
        MolliePaymentStatus::Paid => AttemptStatus::Charged,
    }
}

impl AttemptStatus {
    /// Maps a provider payment status onto the platform's attempt
    /// status; the mapping is total over the provider's closed set.
    pub fn from(item: MolliePaymentStatus) -> (r: AttemptStatus)
        ensures
            r == spec_attempt_status(item),
    {
        match item {
            MolliePaymentStatus::Open => AttemptStatus::AuthenticationPending,
            MolliePaymentStatus::Canceled => AttemptStatus::Voided,
            MolliePaymentStatus::Pending => AttemptStatus::Pending,
            MolliePaymentStatus::Authorized => AttemptStatus::Authorized,
            MolliePaymentStatus::Expired => AttemptStatus::VoidFailed,
            MolliePaymentStatus::Failed => AttemptStatus::Failure,
            MolliePaymentStatus::Paid => AttemptStatus::Charged,
        }
    }
}

} // verus!

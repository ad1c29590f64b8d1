//! Extraction of the provider's API-key credential out of the
//! platform's generic auth-method union.

use vstd::prelude::*;
use crate::domain::{ConnectorAuthType, ConnectorError};

verus! {

/// The credential this provider authenticates with: a single opaque
/// API key, supplied by the transport layer as a header value.
#[derive(Debug, Clone)]
pub struct MollieAuthType {
    pub api_key: String,
}

impl MollieAuthType {
    /// Extracts the API key from the auth union. Succeeds exactly on the
    /// header-key variant, taking its key verbatim; every other variant
    /// fails with `FailedToObtainAuthType`.
    pub fn try_from(auth_type: &ConnectorAuthType) -> (r: Result<MollieAuthType, ConnectorError>)
        ensures
            match *auth_type {
                ConnectorAuthType::HeaderKey { api_key: ref k } => (r matches Ok(a)
                    && a.api_key@ == k@),
                _ => r matches Err(e) && e == ConnectorError::FailedToObtainAuthType,
            },
    {
        if let ConnectorAuthType::HeaderKey { api_key } = auth_type {
            Ok(MollieAuthType { api_key: api_key.clone() })
        } else {
            Err(ConnectorError::FailedToObtainAuthType)
        }
    }
}

} // verus!

//! Construction of the outbound payment-creation request.

use vstd::prelude::*;
use crate::amount::{Amount, amount_value};
use crate::domain::{ConnectorError, PaymentsAuthorizeData};

verus! {

/// The view of the platform's default customer-return URL.
pub open spec fn spec_default_redirect_url() -> Seq<char> {
    "https://hyperswitch.io"@
}

/// The outbound payment-creation payload. The redirect URL is always
/// present on the wire: the builder substitutes the platform default
/// when the domain side supplies none.
#[derive(Debug, Clone, PartialEq, Eq)]
pub struct MolliePaymentsRequest {
    pub amount: Amount,
    pub description: Option<String>,
    pub redirect_url: Option<String>,
}

/// The platform's default customer-return URL, substituted when the
/// domain intent carries none.
pub fn default_redirect_url() -> (r: Option<String>)
    ensures
        r matches Some(u) && u@ == spec_default_redirect_url(),
{
    Some(String::from_str("https://hyperswitch.io"))
}

impl MolliePaymentsRequest {
    /// Builds the outbound request from the domain authorize intent:
    /// the amount is rendered through the amount codec, the description
    /// is copied verbatim when present, and the redirect URL is the
    /// domain return URL when present, else the platform default.
    /// Construction always succeeds; the result type is kept for
    /// forward compatibility.
    pub fn try_from(item: &PaymentsAuthorizeData) -> (r: Result<
        MolliePaymentsRequest,
        ConnectorError,
    >)
        ensures
            r matches Ok(req) && {
                &&& req.amount.currency@ == item.currency@
                &&& req.amount.value@ == amount_value(item.amount as int)
                &&& (match item.description {
                    Some(ref d) => req.description matches Some(rd) && rd@ == d@,
                    None => req.description is None,
                })
                &&& (match item.return_url {
                    Some(ref u) => req.redirect_url matches Some(ru) && ru@ == u@,
                    None => req.redirect_url matches Some(ru) && ru@
                        == spec_default_redirect_url(),
                })
            },
    {
        let description = match &item.description {
            Some(d) => Some(d.clone()),
            None => None,
        };
        let redirect_url = match &item.return_url {
            Some(u) => Some(u.clone()),
            None => default_redirect_url(),
        };
        Ok(MolliePaymentsRequest {
            amount: Amount::new(item.currency.clone(), item.amount),
            description,
            redirect_url,
        })
    }
}

} // verus!

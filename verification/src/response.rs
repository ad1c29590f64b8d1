//! Interpretation of the provider's payment record into the platform's
//! transaction result, including the redirect-vs-direct decision.

use vstd::prelude::*;
use crate::amount::Amount;
use crate::domain::{AttemptStatus, ConnectorError};
use crate::redirect::{Method, RedirectForm};
use crate::status::{spec_attempt_status, MolliePaymentStatus};
use crate::urlparse::{parse_url_query_pairs, url_parses, url_query_pairs};

verus! {

/// The provider's error body. A placeholder: no field exists yet.
#[derive(Debug, Clone, PartialEq, Eq, Structural)]
pub struct MollieErrorResponse {}

/// A navigational link in the provider's response.
#[derive(Debug, Clone, PartialEq, Eq)]
pub struct URL {
    pub href: String,
    pub _type: String,
}

/// The `_links` block of the provider's payment record. The `checkout`
/// link may be a zero-value placeholder (empty href) when the payload
/// carries none, which signals that no customer redirect is needed.
#[derive(Debug, Clone, PartialEq, Eq)]
pub struct Link {
    pub sf: URL,
    pub checkout: URL,
    pub dashboard: URL,
    pub documentation: URL,
}

/// The zero-value placeholder link: both fields empty.
pub fn get_default_url() -> (r: URL)
    ensures
        r.href@ == Seq::<char>::empty(),
        r._type@ == Seq::<char>::empty(),
{
    URL { href: String::new(), _type: String::new() }
}

impl Link {
    /// Applies the wire decoder's defaulting rule explicitly: a payload
    /// with no `checkout` link stands for the zero-value placeholder.
    pub fn checkout_or_default(c: Option<URL>) -> (r: URL)
        ensures
            match c {
                Some(u) => r == u,
                None => r.href@ == Seq::<char>::empty() && r._type@ == Seq::<char>::empty(),
            },
    {
        match c {
            Some(u) => u,
            None => get_default_url(),
        }
    }
}

/// The provider's payment record as received on the wire.
#[derive(Debug, Clone, PartialEq, Eq)]
pub struct MolliePaymentsResponse {
    pub resource: String,
    pub id: String,
    pub mode: String,
    pub created_at: String,
    pub status: MolliePaymentStatus,
    pub amount: Amount,
    pub description: String,
    pub redirect_url: String,
    pub method: String,
    pub profile_id: String,
    pub links: Link,
}

/// The platform-side outcome of a payment attempt. The mandate
/// reference and connector metadata are not populated by this adapter
/// but remain extensible fields of the result.
#[derive(Debug, Clone, PartialEq, Eq)]
pub struct TransactionResult {
    pub status: AttemptStatus,
    pub resource_id: String,
    pub redirect: bool,
    pub redirection_data: Option<RedirectForm>,
    pub mandate_reference: Option<String>,
    pub connector_metadata: Option<String>,
}

impl TransactionResult {
    /// The result's invariant: the redirect flag holds exactly when a
    /// redirection instruction is present.
    pub open spec fn wf(self) -> bool {
        self.redirect <==> self.redirection_data is Some
    }

    /// Interprets the provider's payment record. A redirect is required
    /// exactly when the `checkout` link's href is non-empty; a required
    /// href that does not parse as an absolute URL is a hard error with
    /// the offending value attached. In both successful branches the
    /// status goes through the status mapping and the resource id is the
    /// provider's id.
    pub fn try_from(resp: MolliePaymentsResponse) -> (r: Result<
        TransactionResult,
        ConnectorError,
    >)
        ensures
            r matches Ok(t) ==> t.wf(),
            ({
                let href = resp.links.checkout.href@;
                &&& (href.len() == 0 ==> (r matches Ok(t) && {
                    &&& t.status == spec_attempt_status(resp.status)
                    &&& t.resource_id@ == resp.id@
                    &&& t.redirect == false
                    &&& t.redirection_data is None
                    &&& t.mandate_reference is None
                    &&& t.connector_metadata is None
                }))
                &&& (href.len() > 0 && url_parses(href) ==> (r matches Ok(t) && {
                    &&& t.status == spec_attempt_status(resp.status)
                    &&& t.resource_id@ == resp.id@
                    &&& t.redirect == true
                    &&& (t.redirection_data matches Some(form) && {
                        &&& form.url@ == href
                        &&& form.method == Method::Get
                        &&& form.fields_view() == url_query_pairs(href)
                    })
                    &&& t.mandate_reference is None
                    &&& t.connector_metadata is None
                }))
                &&& (href.len() > 0 && !url_parses(href) ==> (r matches Err(e)
                    && e matches ConnectorError::ResponseHandlingFailed { value } && value@
                    == href))
            }),
    {
        let status = AttemptStatus::from(resp.status);
        let to_be_redirected = !resp.links.checkout.href.as_str().is_empty();
        if to_be_redirected {
            match parse_url_query_pairs(resp.links.checkout.href.as_str()) {
                Some(pairs) => {
                    let form = RedirectForm {
                        url: resp.links.checkout.href,
                        method: Method::Get,
                        form_fields: pairs,
                    };
                    Ok(
                        TransactionResult {
                            status,
                            resource_id: resp.id,
                            redirect: true,
                            redirection_data: Some(form),
                            mandate_reference: None,
                            connector_metadata: None,
                        },
                    )
                },
                None => Err(
                    ConnectorError::ResponseHandlingFailed { value: resp.links.checkout.href },
                ),
            }
        } else {
            Ok(
                TransactionResult {
                    status,
                    resource_id: resp.id,
                    redirect: false,
                    redirection_data: None,
                    mandate_reference: None,
                    connector_metadata: None,
                },
            )
        }
    }
}

} // verus!

use mollie::amount::Amount;
use mollie::domain::{AttemptStatus, ConnectorError};
use mollie::redirect::Method;
use mollie::response::{get_default_url, Link, MolliePaymentsResponse, TransactionResult, URL};
use mollie::status::MolliePaymentStatus;

fn url(href: &str) -> URL {
    URL {
        href: href.to_string(),
        _type: "text/html".to_string(),
    }
}

fn response(status: MolliePaymentStatus, checkout_href: &str) -> MolliePaymentsResponse {
    MolliePaymentsResponse {
        resource: "payment".to_string(),
        id: "tr_WDqYK6vllg".to_string(),
        mode: "test".to_string(),
        created_at: "2018-03-20T09:13:37+00:00".to_string(),
        status,
        amount: Amount {
            currency: "EUR".to_string(),
            value: "10.00".to_string(),
        },
        description: "Order #12345".to_string(),
        redirect_url: "https://webshop.example.org/order/12345/".to_string(),
        method: "ideal".to_string(),
        profile_id: "pfl_QkEhN94Ba".to_string(),
        links: Link {
            sf: url("https://api.mollie.com/v2/payments/tr_WDqYK6vllg"),
            checkout: url(checkout_href),
            dashboard: url("https://www.mollie.com/dashboard"),
            documentation: url("https://docs.mollie.com/reference/get-payment"),
        },
    }
}

#[test]
fn empty_checkout_href_means_no_redirect() {
    for status in [
        MolliePaymentStatus::Open,
        MolliePaymentStatus::Paid,
        MolliePaymentStatus::Failed,
    ] {
        let t = TransactionResult::try_from(response(status, "")).unwrap();
        assert!(!t.redirect);
        assert!(t.redirection_data.is_none());
        assert_eq!(t.resource_id, "tr_WDqYK6vllg");
        assert!(t.mandate_reference.is_none());
        assert!(t.connector_metadata.is_none());
    }
}

#[test]
fn nonempty_checkout_href_means_redirect() {
    let t = TransactionResult::try_from(response(
        MolliePaymentStatus::Open,
        "https://pay.example/checkout?id=42&ref=abc",
    ))
    .unwrap();
    assert!(t.redirect);
    assert_eq!(t.status, AttemptStatus::AuthenticationPending);
    let form = t.redirection_data.unwrap();
    assert_eq!(form.url, "https://pay.example/checkout?id=42&ref=abc");
    assert_eq!(form.method, Method::Get);
    assert_eq!(
        form.form_fields,
        vec![
            ("id".to_string(), "42".to_string()),
            ("ref".to_string(), "abc".to_string()),
        ]
    );
    assert_eq!(form.form_field("id"), Some("42".to_string()));
    assert_eq!(form.form_field("ref"), Some("abc".to_string()));
    assert_eq!(form.form_field("missing"), None);
}

#[test]
fn unparsable_checkout_href_is_a_hard_error() {
    let err = TransactionResult::try_from(response(MolliePaymentStatus::Paid, "not a url"))
        .unwrap_err();
    assert_eq!(
        err,
        ConnectorError::ResponseHandlingFailed {
            value: "not a url".to_string()
        }
    );
}

#[test]
fn checkout_href_without_query_gives_no_fields() {
    let t = TransactionResult::try_from(response(
        MolliePaymentStatus::Pending,
        "https://pay.example/checkout",
    ))
    .unwrap();
    let form = t.redirection_data.unwrap();
    assert!(form.form_fields.is_empty());
    assert_eq!(form.form_field("id"), None);
}

#[test]
fn query_decoding_unescapes_form_encoding() {
    let t = TransactionResult::try_from(response(
        MolliePaymentStatus::Open,
        "https://pay.example/c?a%20key=v+1&x=%2F",
    ))
    .unwrap();
    let form = t.redirection_data.unwrap();
    assert_eq!(form.form_field("a key"), Some("v 1".to_string()));
    assert_eq!(form.form_field("x"), Some("/".to_string()));
}

#[test]
fn duplicate_query_keys_resolve_to_the_last() {
    let t = TransactionResult::try_from(response(
        MolliePaymentStatus::Open,
        "https://pay.example/c?a=1&b=2&a=3",
    ))
    .unwrap();
    let form = t.redirection_data.unwrap();
    assert_eq!(form.form_fields.len(), 3);
    assert_eq!(form.form_field("a"), Some("3".to_string()));
    assert_eq!(form.form_field("b"), Some("2".to_string()));
}

#[test]
fn status_mapping_matches_the_table() {
    let cases = [
        (MolliePaymentStatus::Open, AttemptStatus::AuthenticationPending),
        (MolliePaymentStatus::Pending, AttemptStatus::Pending),
        (MolliePaymentStatus::Authorized, AttemptStatus::Authorized),
        (MolliePaymentStatus::Paid, AttemptStatus::Charged),
        (MolliePaymentStatus::Canceled, AttemptStatus::Voided),
        (MolliePaymentStatus::Expired, AttemptStatus::VoidFailed),
        (MolliePaymentStatus::Failed, AttemptStatus::Failure),
    ];
    for (wire, domain) in cases {
        assert_eq!(AttemptStatus::from(wire), domain);
    }
}

#[test]
fn status_decoding_recognizes_the_seven_spellings() {
    let cases = [
        ("open", MolliePaymentStatus::Open),
        ("canceled", MolliePaymentStatus::Canceled),
        ("pending", MolliePaymentStatus::Pending),
        ("authorized", MolliePaymentStatus::Authorized),
        ("expired", MolliePaymentStatus::Expired),
        ("failed", MolliePaymentStatus::Failed),
        ("paid", MolliePaymentStatus::Paid),
    ];
    for (wire, status) in cases {
        assert_eq!(MolliePaymentStatus::from_wire(wire), Some(status));
    }
    assert_eq!(MolliePaymentStatus::from_wire("Paid"), None);
    assert_eq!(MolliePaymentStatus::from_wire("settled"), None);
    assert_eq!(MolliePaymentStatus::from_wire(""), None);
}

#[test]
fn missing_status_defaults_to_pending() {
    assert_eq!(
        MolliePaymentStatus::or_default(None),
        MolliePaymentStatus::Pending
    );
    assert_eq!(
        MolliePaymentStatus::or_default(Some(MolliePaymentStatus::Paid)),
        MolliePaymentStatus::Paid
    );
}

#[test]
fn missing_checkout_link_defaults_to_empty() {
    let d = get_default_url();
    assert_eq!(d.href, "");
    assert_eq!(d._type, "");
    let defaulted = Link::checkout_or_default(None);
    assert_eq!(defaulted.href, "");
    let kept = Link::checkout_or_default(Some(url("https://pay.example/c")));
    assert_eq!(kept.href, "https://pay.example/c");
}

use mollie::domain;
use mollie::domain::{ConnectorError, RefundsData};
use mollie::refunds::{MollieRefundRequest, RefundResponse, RefundStatus, RefundsResult};

fn refund_intent() -> RefundsData {
    RefundsData {
        refund_amount: 10,
        reason: Some("requested by customer".to_string()),
        connector_transaction_id: "tr_WDqYK6vllg".to_string(),
    }
}

#[test]
fn refund_request_fails_with_not_implemented() {
    let err = MollieRefundRequest::try_from(&refund_intent()).unwrap_err();
    assert_eq!(err, ConnectorError::NotImplemented);
}

#[test]
fn refund_response_interpreters_fail_with_not_implemented() {
    assert_eq!(
        RefundsResult::try_from_execute(RefundResponse {}).unwrap_err(),
        ConnectorError::NotImplemented
    );
    assert_eq!(
        RefundsResult::try_from_sync(RefundResponse {}).unwrap_err(),
        ConnectorError::NotImplemented
    );
}

#[test]
fn refund_status_mapping_matches_the_table() {
    let cases = [
        (RefundStatus::Succeeded, domain::RefundStatus::Success),
        (RefundStatus::Failed, domain::RefundStatus::Failure),
        (RefundStatus::Processing, domain::RefundStatus::Pending),
    ];
    for (wire, dom) in cases {
        assert_eq!(domain::RefundStatus::from(wire), dom);
    }
}

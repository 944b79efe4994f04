use mechvis::client::{process_response, quota_decision, ClientError, QuotaDecision, RateLimitInfo};
use mechvis::queries::{ReportEvents, ReportEventsResponse};

#[test]
fn quota_gate_waits_when_budget_is_low() {
    let info = RateLimitInfo {
        limit_per_hour: 100,
        points_spent_this_hour: 10,
        points_reset_in: 60,
    };
    assert_eq!(quota_decision(&info), QuotaDecision::Wait { seconds: 60 });
}

#[test]
fn quota_gate_proceeds_when_budget_remains() {
    let info = RateLimitInfo {
        limit_per_hour: 1000,
        points_spent_this_hour: 5,
        points_reset_in: 60,
    };
    assert_eq!(quota_decision(&info), QuotaDecision::Proceed);
}

#[test]
fn quota_gate_boundary() {
    // Exactly 100 points left: no wait; one point fewer: wait.
    let at_threshold = RateLimitInfo {
        limit_per_hour: 200,
        points_spent_this_hour: 100,
        points_reset_in: 30,
    };
    assert_eq!(quota_decision(&at_threshold), QuotaDecision::Proceed);
    let below_threshold = RateLimitInfo {
        limit_per_hour: 200,
        points_spent_this_hour: 101,
        points_reset_in: 30,
    };
    assert_eq!(
        quota_decision(&below_threshold),
        QuotaDecision::Wait { seconds: 30 }
    );
}

#[test]
fn server_errors_concatenate_into_api_error() {
    let errors = vec!["first failure".to_string(), "second failure".to_string()];
    let r = process_response::<ReportEvents>(None, Some(errors));
    assert_eq!(
        r,
        Err(ClientError::Api { message: "first failure\nsecond failure\n".to_string() })
    );
}

#[test]
fn missing_payload_is_a_protocol_violation() {
    let r = process_response::<ReportEvents>(None, None);
    assert_eq!(r, Err(ClientError::ProtocolViolation));

    // An empty error list does not count as a server-reported failure.
    let r = process_response::<ReportEvents>(None, Some(Vec::new()));
    assert_eq!(r, Err(ClientError::ProtocolViolation));
}

#[test]
fn successful_response_carries_the_quota_decision() {
    let data = ReportEventsResponse {
        rate_limit_data: Some(RateLimitInfo {
            limit_per_hour: 100,
            points_spent_this_hour: 10,
            points_reset_in: 60,
        }),
        page: None,
    };
    let r = process_response::<ReportEvents>(Some(data.clone()), None);
    assert_eq!(r, Ok((data, QuotaDecision::Wait { seconds: 60 })));
}

#[test]
fn response_without_quota_data_proceeds() {
    let data = ReportEventsResponse { rate_limit_data: None, page: None };
    let r = process_response::<ReportEvents>(Some(data.clone()), None);
    assert_eq!(r, Ok((data, QuotaDecision::Proceed)));
}

use broker_gateway_service::application::gateway_service::{
    cancel_request_record, order_correlation, order_request_record, order_response_record,
    query_request_record, query_response_record, subscription_request_record,
};
use broker_gateway_service::domain::journal::{RequestRecord, ResponseRecord};
use broker_gateway_service::domain::market_data::MarketSubscription;
use broker_gateway_service::domain::order::{CancelCmd, ExecutionId, StatusQuery};
use broker_gateway_service::domain::wire_message::ErrorPayload;

#[test]
fn cancel_order_correlation_id_echoed_in_response() {
    let correlation_id = "cancel-corr-789".to_string();
    let cmd = CancelCmd {
        execution_id: ExecutionId("exec-123".to_string()),
        correlation_id: Some(correlation_id.clone()),
    };

    let echoed_correlation = cmd.correlation_id.clone().or_else(|| Some(cmd.execution_id.0.clone()));

    assert_eq!(echoed_correlation, Some(correlation_id));
}

#[test]
fn cancel_order_fallback_to_execution_id() {
    let exec_id = ExecutionId("exec-789".to_string());
    let cmd = CancelCmd { execution_id: exec_id.clone(), correlation_id: None };

    let echoed_correlation = cmd.correlation_id.clone().or_else(|| Some(cmd.execution_id.0.clone()));

    assert_eq!(echoed_correlation, Some(exec_id.0));
}

#[test]
fn query_status_correlation_id_echoed_in_response() {
    let correlation_id = "query-corr-def".to_string();
    let query = StatusQuery {
        execution_id: ExecutionId("exec-456".to_string()),
        correlation_id: Some(correlation_id.clone()),
    };

    let echoed_correlation = query.correlation_id.clone().or_else(|| Some(query.execution_id.0.clone()));

    assert_eq!(echoed_correlation, Some(correlation_id));
}

#[test]
fn subscribe_correlation_id_echoed_in_response() {
    let correlation_id = "sub-corr-ghi".to_string();
    let sub = MarketSubscription { symbol: "MSFT".to_string(), correlation_id: Some(correlation_id.clone()) };

    let echoed_correlation = sub.correlation_id.clone().or_else(|| Some(sub.symbol.clone()));

    assert_eq!(echoed_correlation, Some(correlation_id));
}

#[test]
fn subscribe_fallback_to_symbol() {
    let sub = MarketSubscription { symbol: "GOOGL".to_string(), correlation_id: None };

    let echoed_correlation = sub.correlation_id.clone().or_else(|| Some(sub.symbol.clone()));

    assert_eq!(echoed_correlation, Some("GOOGL".to_string()));
}

#[test]
fn unsubscribe_correlation_id_echoed_in_response() {
    let correlation_id = "unsub-corr-jkl".to_string();
    let sub = MarketSubscription { symbol: "AMZN".to_string(), correlation_id: Some(correlation_id.clone()) };

    let echoed_correlation = sub.correlation_id.clone().or_else(|| Some(sub.symbol.clone()));

    assert_eq!(echoed_correlation, Some(correlation_id));
}

#[test]
fn error_payload_carries_correlation_id() {
    let correlation_id = Some("wire-corr-error".to_string());
    let payload = ErrorPayload {
        correlation_id: correlation_id.clone(),
        code: "TEST_ERROR".to_string(),
        message: "Test error message".to_string(),
    };

    assert_eq!(payload.correlation_id, correlation_id);
}

#[test]
fn request_record_carries_correlation_id() {
    let record = RequestRecord {
        id: "req-123".to_string(),
        raw_payload: Some(r#"{"symbol":"AAPL"}"#.to_string()),
        correlation_id: Some("journal-corr-001".to_string()),
    };

    assert_eq!(record.correlation_id, Some("journal-corr-001".to_string()));
}

#[test]
fn response_record_carries_correlation_id() {
    let record = ResponseRecord {
        id: "resp-456".to_string(),
        raw_payload: Some(r#"{"result":"success"}"#.to_string()),
        correlation_id: Some("journal-corr-002".to_string()),
    };

    assert_eq!(record.correlation_id, Some("journal-corr-002".to_string()));
}

#[test]
fn journal_records_correlation_matching() {
    let correlation_id = "audit-trail-001".to_string();

    let outbound = RequestRecord {
        id: "req-001".to_string(),
        raw_payload: Some(r#"{"action":"submit"}"#.to_string()),
        correlation_id: Some(correlation_id.clone()),
    };

    let inbound = ResponseRecord {
        id: "resp-001".to_string(),
        raw_payload: Some(r#"{"result":"filled"}"#.to_string()),
        correlation_id: Some(correlation_id.clone()),
    };

    assert_eq!(outbound.correlation_id, inbound.correlation_id);
    assert_eq!(outbound.correlation_id, Some(correlation_id));
}

#[test]
fn journal_records_echo_the_callers_correlation_id() {
    let cmd = CancelCmd {
        execution_id: ExecutionId("exec-1".to_string()),
        correlation_id: Some("corr-1".to_string()),
    };
    let rec = cancel_request_record(&cmd, Some("{}".to_string()));
    assert_eq!(rec.id, "exec-1");
    assert_eq!(rec.raw_payload, Some("{}".to_string()));
    assert_eq!(rec.correlation_id, Some("corr-1".to_string()));
}

#[test]
fn journal_records_fall_back_to_the_request_key() {
    let cmd = CancelCmd { execution_id: ExecutionId("exec-2".to_string()), correlation_id: None };
    assert_eq!(cancel_request_record(&cmd, None).correlation_id, Some("exec-2".to_string()));

    let q = StatusQuery { execution_id: ExecutionId("exec-3".to_string()), correlation_id: None };
    assert_eq!(query_request_record(&q, None).correlation_id, Some("exec-3".to_string()));
    let resp = query_response_record(&q, Some("status".to_string()));
    assert_eq!(resp.id, "exec-3");
    assert_eq!(resp.correlation_id, Some("exec-3".to_string()));
    assert_eq!(resp.raw_payload, Some("status".to_string()));

    let sub = MarketSubscription { symbol: "GOOGL".to_string(), correlation_id: None };
    let rec = subscription_request_record(&sub, None);
    assert_eq!(rec.id, "GOOGL");
    assert_eq!(rec.correlation_id, Some("GOOGL".to_string()));
}

#[test]
fn order_correlation_prefers_correlation_id_then_client_order_id() {
    let corr = Some("corr".to_string());
    let client = Some("client".to_string());
    assert_eq!(order_correlation(&corr, &client), Some("corr".to_string()));
    assert_eq!(order_correlation(&None, &client), Some("client".to_string()));
    assert_eq!(order_correlation(&None, &None), None);

    let rec = order_request_record("AAPL", &None, &client, None);
    assert_eq!(rec.id, "AAPL");
    assert_eq!(rec.correlation_id, Some("client".to_string()));
    let resp = order_response_record("exec-9", &corr, &client);
    assert_eq!(resp.id, "exec-9");
    assert_eq!(resp.raw_payload, None);
    assert_eq!(resp.correlation_id, Some("corr".to_string()));
}

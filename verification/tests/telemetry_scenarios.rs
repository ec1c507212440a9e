use broker_gateway_service::patterns::telemetry_decorator::{TelemetryDecorator, TelemetryEvent, TraceId};

#[test]
fn test_telemetry_captures_all_required_fields() {
    let decorator = TelemetryDecorator::new();

    let (_, event) = decorator.wrap_outbound("submit_order", "alpaca", || 42);

    assert!(!event.trace_id.0.is_empty(), "Trace ID should not be empty");
    assert_eq!(event.operation, "submit_order");
    assert_eq!(event.target, "alpaca");
    assert!(event.success);
    assert!(event.latency > 0, "Latency should be measured");
}

#[test]
fn test_telemetry_with_status_code_and_payload_sizes() {
    let mut decorator = TelemetryDecorator::new();

    let trace_id = decorator.start_operation("api_call");
    let event = decorator
        .complete_operation(trace_id, Some(200), 1024, 2048, None)
        .expect("Event should be received");

    assert_eq!(event.status_code, Some(200));
    assert_eq!(event.request_payload_size, 1024);
    assert_eq!(event.response_payload_size, 2048);
    assert!(event.success);
}

#[test]
fn test_telemetry_captures_error_information() {
    let mut decorator = TelemetryDecorator::new();

    let trace_id = decorator.start_operation("failed_operation");
    let event = decorator
        .complete_operation(
            trace_id,
            Some(500),
            512,
            0,
            Some(("ConnectionTimeout".to_string(), "Connection to broker timed out".to_string())),
        )
        .expect("Event should be received");

    assert!(!event.success);
    assert_eq!(event.status_code, Some(500));
    assert_eq!(event.error_type, Some("ConnectionTimeout".to_string()));
    assert_eq!(event.error_message, Some("Connection to broker timed out".to_string()));
}

#[test]
fn test_event_builder_creates_complete_events() {
    let event = TelemetryEvent::builder("cancel_order", "alpaca")
        .status_code(200)
        .request_payload_size(256)
        .response_payload_size(128)
        .build();

    assert_eq!(event.operation, "cancel_order");
    assert_eq!(event.target, "alpaca");
    assert_eq!(event.status_code, Some(200));
    assert_eq!(event.request_payload_size, 256);
    assert_eq!(event.response_payload_size, 128);
    assert!(event.success);
}

#[test]
fn telemetry_integration_test_event_builder_with_error() {
    let event = TelemetryEvent::builder("modify_order", "fix")
        .status_code(400)
        .request_payload_size(512)
        .failed("InvalidOrderState", "Cannot modify filled order")
        .build();

    assert!(!event.success);
    assert_eq!(event.error_type, Some("InvalidOrderState".to_string()));
    assert_eq!(event.error_message, Some("Cannot modify filled order".to_string()));
}

#[test]
fn test_trace_ids_are_unique() {
    let mut ids = std::collections::HashSet::new();
    for _ in 0..100 {
        let id = TraceId::new();
        assert!(ids.insert(id), "Duplicate trace ID generated");
    }
}

#[test]
fn test_telemetry_factory_is_reusable() {
    let decorator = TelemetryDecorator::new();
    let mut event_count = 0;

    for i in 0..10 {
        let (result, _event) = decorator.wrap_outbound(&format!("op_{}", i), "alpaca", || i);
        assert_eq!(result, i);
        event_count += 1;
    }

    assert_eq!(event_count, 10);
}

#[test]
fn telemetry_integration_test_active_operations_tracking() {
    let mut decorator = TelemetryDecorator::new();

    assert_eq!(decorator.active_operation_count(), 0);

    let id1 = decorator.start_operation("op1");
    let id2 = decorator.start_operation("op2");
    let id3 = decorator.start_operation("op3");

    assert_eq!(decorator.active_operation_count(), 3);

    let trace_ids = decorator.active_trace_ids();
    assert!(trace_ids.contains(&id1));
    assert!(trace_ids.contains(&id2));
    assert!(trace_ids.contains(&id3));

    decorator.complete_operation(id1, None, 0, 0, None);
    assert_eq!(decorator.active_operation_count(), 2);

    decorator.complete_operation(id2, None, 0, 0, None);
    decorator.complete_operation(id3, None, 0, 0, None);
    assert_eq!(decorator.active_operation_count(), 0);
}

#[test]
fn test_callback_not_called_when_none_registered() {
    let decorator = TelemetryDecorator::new();
    let (result, event) = decorator.wrap_outbound("test", "target", || 42);
    assert_eq!(result, 42);
    assert_eq!(event.operation, "test");
    assert_eq!(event.target, "target");
    assert!(event.success);
}

#[test]
fn test_different_broker_targets() {
    let decorator = TelemetryDecorator::new();
    let mut all_events = Vec::new();

    all_events.push(decorator.wrap_outbound("submit", "alpaca", || ()).1);
    all_events.push(decorator.wrap_outbound("submit", "fix", || ()).1);
    all_events.push(decorator.wrap_outbound("submit", "websocket", || ()).1);

    assert_eq!(all_events.len(), 3);

    let targets: Vec<_> = all_events.iter().map(|e| e.target.clone()).collect();
    assert!(targets.contains(&"alpaca".to_string()));
    assert!(targets.contains(&"fix".to_string()));
    assert!(targets.contains(&"websocket".to_string()));
}

#[derive(Debug)]
enum TestBrokerError {
    RateLimited,
    ConnectionFailed(String),
    InvalidOrder(String),
}

impl std::fmt::Display for TestBrokerError {
    fn fmt(&self, f: &mut std::fmt::Formatter<'_>) -> std::fmt::Result {
        match self {
            TestBrokerError::RateLimited => f.write_str("Rate limit exceeded"),
            TestBrokerError::ConnectionFailed(msg) => {
                f.write_str("Connection failed: ")?;
                f.write_str(msg)
            }
            TestBrokerError::InvalidOrder(msg) => {
                f.write_str("Invalid order: ")?;
                f.write_str(msg)
            }
        }
    }
}

fn classify_broker_error(e: &TestBrokerError) -> &'static str {
    match e {
        TestBrokerError::RateLimited => "rate_limited",
        TestBrokerError::ConnectionFailed(_) => "connection_error",
        TestBrokerError::InvalidOrder(_) => "invalid_order",
    }
}

type Classifier = fn(&TestBrokerError) -> &'static str;

#[test]
fn test_wrap_outbound_result_captures_success() {
    let decorator = TelemetryDecorator::new();

    let (result, event) = decorator.wrap_outbound_result(
        "submit_order",
        "alpaca",
        || Ok::<i32, TestBrokerError>(42),
        Some(classify_broker_error),
    );

    assert_eq!(result.unwrap(), 42);
    assert!(event.success);
    assert!(event.error_type.is_none());
    assert!(event.error_message.is_none());
    assert!(event.latency > 0);
    assert_eq!(event.operation, "submit_order");
    assert_eq!(event.target, "alpaca");
}

#[test]
fn test_wrap_outbound_result_captures_rate_limit_error() {
    let decorator = TelemetryDecorator::new();

    let (result, event) = decorator.wrap_outbound_result(
        "submit_order",
        "alpaca",
        || Err::<i32, TestBrokerError>(TestBrokerError::RateLimited),
        Some(classify_broker_error),
    );

    assert!(result.is_err());
    assert!(!event.success);
    assert_eq!(event.error_type, Some("rate_limited".to_string()));
    assert_eq!(event.error_message, Some("Rate limit exceeded".to_string()));
}

#[test]
fn test_wrap_outbound_result_captures_connection_error() {
    let decorator = TelemetryDecorator::new();

    let (result, event) = decorator.wrap_outbound_result(
        "cancel_order",
        "alpaca",
        || Err::<(), TestBrokerError>(TestBrokerError::ConnectionFailed("timeout".to_string())),
        Some(classify_broker_error),
    );

    assert!(result.is_err());
    assert!(!event.success);
    assert_eq!(event.error_type, Some("connection_error".to_string()));
    assert!(event.error_message.as_ref().unwrap().contains("timeout"));
}

#[test]
fn test_wrap_outbound_result_without_classifier() {
    let decorator = TelemetryDecorator::new();

    let (result, event) = decorator.wrap_outbound_result(
        "modify_order",
        "alpaca",
        || Err::<i32, TestBrokerError>(TestBrokerError::InvalidOrder("Bad price".to_string())),
        None::<Classifier>,
    );

    assert!(result.is_err());
    assert!(!event.success);
    assert!(event.error_type.is_none());
    assert_eq!(event.error_message, Some("Invalid order: Bad price".to_string()));
}

#[test]
fn test_telemetry_events_are_structured_not_strings() {
    let decorator = TelemetryDecorator::new();

    let (_, event) = decorator.wrap_outbound_result(
        "test_op",
        "test_target",
        || Ok::<i32, TestBrokerError>(123),
        None::<Classifier>,
    );

    assert!(!event.trace_id.0.is_empty());
    assert_eq!(event.operation, "test_op");
    assert_eq!(event.target, "test_target");
    assert!(event.latency > 0);
    assert!(event.success);
}

#[test]
fn test_error_categorization_is_accurate() {
    let decorator = TelemetryDecorator::new();

    let (_, event) = decorator.wrap_outbound_result(
        "test",
        "alpaca",
        || Err::<i32, TestBrokerError>(TestBrokerError::RateLimited),
        Some(classify_broker_error),
    );
    assert_eq!(event.error_type, Some("rate_limited".to_string()));

    let (_, event) = decorator.wrap_outbound_result(
        "test",
        "alpaca",
        || Err::<i32, TestBrokerError>(TestBrokerError::ConnectionFailed("error".to_string())),
        Some(classify_broker_error),
    );
    assert_eq!(event.error_type, Some("connection_error".to_string()));

    let (_, event) = decorator.wrap_outbound_result(
        "test",
        "alpaca",
        || Err::<i32, TestBrokerError>(TestBrokerError::InvalidOrder("bad".to_string())),
        Some(classify_broker_error),
    );
    assert_eq!(event.error_type, Some("invalid_order".to_string()));
}

#[test]
fn test_multiple_operations_track_independently() {
    let decorator = TelemetryDecorator::new();
    let mut all_events = Vec::new();

    all_events.push(
        decorator.wrap_outbound_result("op1", "target1", || Ok::<i32, TestBrokerError>(1), None::<Classifier>).1,
    );
    all_events.push(
        decorator
            .wrap_outbound_result(
                "op2",
                "target2",
                || Err::<i32, TestBrokerError>(TestBrokerError::RateLimited),
                Some(classify_broker_error),
            )
            .1,
    );
    all_events.push(
        decorator.wrap_outbound_result("op3", "target3", || Ok::<i32, TestBrokerError>(3), None::<Classifier>).1,
    );

    assert_eq!(all_events.len(), 3);

    assert!(all_events[0].success);
    assert!(!all_events[1].success);
    assert_eq!(all_events[1].error_type, Some("rate_limited".to_string()));
    assert!(all_events[2].success);

    assert_eq!(all_events[0].operation, "op1");
    assert_eq!(all_events[1].operation, "op2");
    assert_eq!(all_events[2].operation, "op3");
}

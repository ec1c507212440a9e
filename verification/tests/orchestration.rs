use broker_gateway_service::domain::orchestration::{OrchestrationAck, OrchestrationCommand};

#[test]
fn test_command_type_names() {
    let cmd = OrchestrationCommand::HealthCheck;
    assert_eq!(cmd.command_type(), "health_check");

    let cmd = OrchestrationCommand::ReloadPolicies;
    assert_eq!(cmd.command_type(), "reload_policies");

    let cmd = OrchestrationCommand::ResetCircuitBreaker;
    assert_eq!(cmd.command_type(), "reset_circuit_breaker");

    let cmd = OrchestrationCommand::FlushPendingOrders;
    assert_eq!(cmd.command_type(), "flush_pending_orders");
}

#[test]
fn test_ack_success() {
    let ack = OrchestrationAck::success("health_check");
    assert!(ack.success);
    assert_eq!(ack.command_type, "health_check");
    assert!(ack.error.is_none());
    assert!(ack.timestamp_ms > 0);
}

#[test]
fn test_ackfailure() {
    let ack = OrchestrationAck::failure("set_operation_mode", "invalid mode");
    assert!(!ack.success);
    assert_eq!(ack.command_type, "set_operation_mode");
    assert_eq!(ack.error, Some("invalid mode".to_string()));
}

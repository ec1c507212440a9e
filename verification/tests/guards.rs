use broker_gateway_service::application::risk_management::{risk_step, RiskAction};
use broker_gateway_service::application::stream_monitor::{StreamControlEvent, StreamMonitor, StreamMonitorConfig};
use broker_gateway_service::application::kill_switch::KillSwitch;
use broker_gateway_service::application::validator::PriceCheck::{Missing, NonPositive, NotFinite, Valid};
use broker_gateway_service::application::validator::{PriceCheck, RequestValidator};
use broker_gateway_service::domain::broker_error::BrokerError;
use broker_gateway_service::domain::order::{CancelCmd, ExecutionId, OrderType, StatusQuery};

fn unknown(msg: &str) -> Result<(), BrokerError> {
    Err(BrokerError::Unknown(msg.to_string()))
}

#[test]
fn kill_switch_starts_disabled_and_toggles() {
    let mut ks = KillSwitch::default();
    assert!(!ks.is_enabled());
    assert_eq!(ks.enable(), 0);
    assert!(ks.is_enabled());
    ks.disable();
    assert!(!ks.is_enabled());
}

#[test]
fn kill_switch_tracks_open_orders_once() {
    let mut ks = KillSwitch::new();
    let a = ExecutionId("exec-a".to_string());
    let b = ExecutionId::from("exec-b".to_string());
    assert!(ks.track_open_order(&a));
    assert!(!ks.track_open_order(&a));
    assert!(ks.track_open_order(&b));
    assert_eq!(ks.open_order_count(), 2);
    assert!(ks.is_order_tracked(&b));
    let ids: Vec<String> = ks.get_open_orders().into_iter().map(|e| e.0).collect();
    assert_eq!(ids, vec!["exec-a".to_string(), "exec-b".to_string()]);
    // Enabling reports how many orders are open and must be cancelled.
    assert_eq!(ks.enable(), 2);
    assert!(ks.remove_open_order(&a));
    assert!(!ks.remove_open_order(&a));
    assert!(!ks.is_order_tracked(&a));
    assert_eq!(ks.open_order_count(), 1);
    assert_eq!(b.to_string(), "exec-b");
}

#[test]
fn validator_checks_orders_in_order() {
    let v = RequestValidator::new();
    let ok = |s: &str, q: u32, t: OrderType, l: PriceCheck, st: PriceCheck, n: PriceCheck| {
        v.validate_order_checked(s, q, t, l, st, n)
    };
    assert_eq!(ok("AAPL", 10, OrderType::Market, Missing, Missing, Missing), Ok(()));
    assert_eq!(ok("", 10, OrderType::Market, Missing, Missing, Missing), unknown("symbol cannot be empty"));
    assert_eq!(
        ok("ABCDEFGHIJKLMNOPQRSTU", 10, OrderType::Market, Missing, Missing, Missing),
        unknown("symbol too long (max 20 chars)")
    );
    assert_eq!(
        ok("AA PL", 10, OrderType::Market, Missing, Missing, Missing),
        unknown("symbol contains invalid characters")
    );
    assert_eq!(ok("BRK.B", 10, OrderType::Market, Missing, Missing, Missing), Ok(()));
    assert_eq!(ok("AAPL", 0, OrderType::Market, Missing, Missing, Missing), unknown("quantity must be greater than 0"));
    assert_eq!(
        ok("AAPL", 1_000_001, OrderType::Market, Missing, Missing, Missing),
        unknown("quantity exceeds maximum (1,000,000)")
    );
    assert_eq!(
        ok("AAPL", 1, OrderType::Limit, Missing, Missing, Missing),
        unknown("limit price required for limit orders")
    );
    assert_eq!(
        ok("AAPL", 1, OrderType::StopLimit, Valid, NonPositive, Missing),
        unknown("stop price must be greater than 0")
    );
    assert_eq!(
        ok("AAPL", 1, OrderType::Stop, Missing, NotFinite, Missing),
        unknown("stop price must be a valid number")
    );
    assert_eq!(
        ok("AAPL", 1, OrderType::Market, Missing, Missing, NonPositive),
        unknown("notional must be greater than 0")
    );
    assert_eq!(
        ok("AAPL", 1, OrderType::Market, NotFinite, Missing, NotFinite),
        unknown("notional must be a valid number")
    );
}

#[test]
fn validator_checks_replace_cancel_and_query() {
    let v = RequestValidator::default();
    assert_eq!(v.validate_replace_checked("exec-1", "TSLA", Some(50), PriceCheck::Valid), Ok(()));
    assert_eq!(v.validate_replace_checked("", "TSLA", None, PriceCheck::Missing), unknown("execution_id cannot be empty"));
    assert_eq!(v.validate_replace_checked("exec-1", "TS LA", None, PriceCheck::Missing), Ok(()));
    assert_eq!(
        v.validate_replace_checked("exec-1", "TSLA", Some(0), PriceCheck::Missing),
        unknown("quantity must be greater than 0")
    );
    assert_eq!(
        v.validate_replace_checked("exec-1", "TSLA", None, PriceCheck::NonPositive),
        unknown("limit price must be greater than 0")
    );
    let long = "x".repeat(101);
    let cancel = CancelCmd { execution_id: ExecutionId(long.clone()), correlation_id: None };
    assert_eq!(v.validate_cancel(&cancel), unknown("execution_id too long (max 100 chars)"));
    let query = StatusQuery { execution_id: ExecutionId("exec-1".to_string()), correlation_id: None };
    assert_eq!(v.validate_query(&query), Ok(()));
    assert_eq!(v.validate_symbol("A\u{e9}", true), Ok(()));
    assert_eq!(v.validate_quantity(1_000_000), Ok(()));
    assert_eq!(v.validate_execution_id(&"y".repeat(100)), Ok(()));
}

#[test]
fn broker_errors_describe_themselves() {
    assert_eq!(BrokerError::ConnectionFailed("timeout".to_string()).to_string(), "connection failed: timeout");
    assert_eq!(BrokerError::RateLimited.to_string(), "rate limited");
    assert_eq!(BrokerError::Unknown("duplicate order".to_string()).to_string(), "duplicate order");
}

#[test]
fn enabling_requests_cancellation_of_open_orders_once() {
    let mut ks = KillSwitch::new();
    ks.track_open_order(&ExecutionId("order-1".into()));
    ks.track_open_order(&ExecutionId("order-2".into()));
    let (count, to_cancel) = ks.enable_with_cancellations();
    assert_eq!(count, 2);
    let ids: Vec<String> = to_cancel.into_iter().map(|e| e.0).collect();
    assert_eq!(ids, vec!["order-1".to_string(), "order-2".to_string()]);
    assert!(ks.is_enabled());
    // Already on: the count is still reported, nothing more is cancelled.
    let (count, to_cancel) = ks.enable_with_cancellations();
    assert_eq!(count, 2);
    assert!(to_cancel.is_empty());
    // Orders stay tracked until the broker confirms them gone.
    assert_eq!(ks.open_order_count(), 2);
}

#[test]
fn enabling_with_no_open_orders_cancels_nothing() {
    let mut ks = KillSwitch::new();
    let (count, to_cancel) = ks.enable_with_cancellations();
    assert_eq!(count, 0);
    assert!(to_cancel.is_empty());
}

#[test]
fn kill_switch_is_checked_before_the_rate_limit() {
    match risk_step(true, None) {
        RiskAction::Refuse(e) => assert_eq!(e, BrokerError::Unknown("kill switch is active".to_string())),
        _ => panic!("the kill switch must refuse"),
    }
    assert!(matches!(risk_step(true, Some(true)), RiskAction::Refuse(_)));
    assert!(matches!(risk_step(false, None), RiskAction::ConsultRateLimiter));
    assert!(matches!(risk_step(false, Some(true)), RiskAction::Allow));
    match risk_step(false, Some(false)) {
        RiskAction::Refuse(e) => assert_eq!(e, BrokerError::RateLimited),
        _ => panic!("an exhausted bucket must refuse"),
    }
}

#[test]
fn control_events_go_to_a_listener_only_when_asked_for() {
    let gap = StreamControlEvent::SequenceGap {
        source: "alpaca".to_string(),
        symbol: "AAPL".to_string(),
        expected_seq: 2,
        actual_seq: 5,
        gap_size: 3,
        timestamp: "2024-01-01T00:00:00Z".to_string(),
    };
    let on = StreamMonitor::default();
    assert_eq!(on.control_events_to_deliver(vec![gap.clone()], true), vec![gap.clone()]);
    assert!(on.control_events_to_deliver(vec![gap.clone()], false).is_empty());
    let off = StreamMonitor::new(StreamMonitorConfig::default().without_control_events());
    assert!(off.control_events_to_deliver(vec![gap], true).is_empty());
}

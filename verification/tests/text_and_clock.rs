use broker_gateway_service::application::stream_monitor::{StreamControlEvent, StreamMonitor};
use broker_gateway_service::domain::orchestration::OrchestrationAck;
use broker_gateway_service::patterns::telemetry_decorator::TraceId;
use broker_gateway_service::text::{concat2, owned, str_eq};

/// Nanoseconds since the UNIX epoch on the system clock.
fn epoch_nanos() -> u64 {
    std::time::SystemTime::now()
        .duration_since(std::time::UNIX_EPOCH)
        .map(|d| d.as_nanos() as u64)
        .unwrap_or(0)
}

#[test]
fn string_helpers() {
    assert_eq!(concat2("ab", "cd"), "abcd");
    assert_eq!(owned("x"), "x".to_string());
    assert!(str_eq("same", "same"));
    assert!(!str_eq("same", "Same"));
}

#[test]
fn trace_ids_are_prefixed_decimal_pairs() {
    let a = TraceId::new();
    let b = TraceId::new();
    assert_ne!(a.0, b.0);
    let rest = a.0.strip_prefix("trace-").expect("trace- prefix");
    let mut parts = rest.split('-');
    let nanos = parts.next().unwrap();
    let random = parts.next().unwrap();
    assert!(parts.next().is_none());
    assert!(!nanos.is_empty() && nanos.chars().all(|c| c.is_ascii_digit()));
    assert!(!random.is_empty() && random.chars().all(|c| c.is_ascii_digit()));
    assert!(nanos.parse::<u64>().unwrap() > 1_600_000_000_000_000_000);
}

#[test]
fn acks_carry_the_wall_clock_time() {
    let ack = OrchestrationAck::success("cmd-1");
    assert!(ack.timestamp_ms > 1_600_000_000_000);
}

#[test]
fn gap_reports_carry_an_rfc3339_timestamp() {
    let mut monitor = StreamMonitor::default();
    monitor.process_event("alpaca", "AAPL", 1, epoch_nanos());
    let events = monitor.process_event("alpaca", "AAPL", 3, epoch_nanos());
    assert_eq!(events.len(), 1);
    match &events[0] {
        StreamControlEvent::SequenceGap { timestamp, .. } => {
            assert!(timestamp.len() >= 20);
            assert_eq!(&timestamp[4..5], "-");
            assert!(timestamp.contains('T'));
        }
        _ => panic!("expected a gap report"),
    }
}

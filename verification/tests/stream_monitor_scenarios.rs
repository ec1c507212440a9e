use broker_gateway_service::application::stream_monitor::{
    StreamControlEvent, StreamMonitor, StreamMonitorConfig,
};


/// Nanoseconds since the UNIX epoch on the system clock.
fn now_nanos() -> u64 {
    std::time::SystemTime::now()
        .duration_since(std::time::UNIX_EPOCH)
        .map(|d| d.as_nanos() as u64)
        .unwrap_or(0)
}

#[test]
fn test_stream_monitor_tracks_new_stream() {
    let mut monitor = StreamMonitor::default();
    let events = monitor.process_event("alpaca", "AAPL", 1, now_nanos());

    assert!(events.is_empty());

    let health = monitor.get_stream_state("alpaca", "AAPL").unwrap();
    assert!(health.is_healthy);
    assert_eq!(health.last_seq_no, 1);
}

#[test]
fn test_sequence_gap_detection() {
    let mut monitor = StreamMonitor::default();

    monitor.process_event("alpaca", "AAPL", 1, now_nanos());
    let events = monitor.process_event("alpaca", "AAPL", 3, now_nanos());

    assert_eq!(events.len(), 1);
    assert!(matches!(events[0], StreamControlEvent::SequenceGap { .. }));

    if let StreamControlEvent::SequenceGap { expected_seq, actual_seq, gap_size, .. } = &events[0] {
        assert_eq!(*expected_seq, 2);
        assert_eq!(*actual_seq, 3);
        assert_eq!(*gap_size, 1);
    }
}

#[test]
fn test_duplicate_sequence_detection() {
    let mut monitor = StreamMonitor::default();

    monitor.process_event("alpaca", "AAPL", 1, now_nanos());
    let events = monitor.process_event("alpaca", "AAPL", 1, now_nanos());

    assert_eq!(events.len(), 1);
    assert!(matches!(events[0], StreamControlEvent::DuplicateSequence { .. }));
}

#[test]
fn test_sequence_reset_detection() {
    let mut monitor = StreamMonitor::default();

    monitor.process_event("alpaca", "AAPL", 5, now_nanos());
    let events = monitor.process_event("alpaca", "AAPL", 1, now_nanos());

    assert_eq!(events.len(), 1);
    assert!(matches!(events[0], StreamControlEvent::SequenceReset { .. }));
}

#[test]
fn test_monitor_reset() {
    let mut monitor = StreamMonitor::default();

    monitor.process_event("alpaca", "AAPL", 1, now_nanos());
    assert_eq!(monitor.get_monitored_streams().len(), 1);

    monitor.reset();
    assert!(monitor.get_monitored_streams().is_empty());
}

#[test]
fn test_multiple_streams_independent() {
    let mut monitor = StreamMonitor::default();

    monitor.process_event("alpaca", "AAPL", 1, now_nanos());
    let aapl_events = monitor.process_event("alpaca", "AAPL", 3, now_nanos());

    monitor.process_event("alpaca", "MSFT", 1, now_nanos());
    let msft_events = monitor.process_event("alpaca", "MSFT", 2, now_nanos());

    assert_eq!(aapl_events.len(), 1);
    assert!(msft_events.is_empty());

    let stats = monitor.get_statistics();
    assert_eq!(stats.total_gaps, 1);
}

#[test]
fn test_stream_monitor_detects_sequence_gaps() {
    let mut monitor = StreamMonitor::default();

    let events1 = monitor.process_event("alpaca", "AAPL", 1, now_nanos());
    assert!(events1.is_empty());

    let events2 = monitor.process_event("alpaca", "AAPL", 2, now_nanos());
    assert!(events2.is_empty());

    let events3 = monitor.process_event("alpaca", "AAPL", 5, now_nanos());
    assert_eq!(events3.len(), 1);

    match &events3[0] {
        StreamControlEvent::SequenceGap { expected_seq, actual_seq, gap_size, .. } => {
            assert_eq!(*expected_seq, 3);
            assert_eq!(*actual_seq, 5);
            assert_eq!(*gap_size, 2);
        }
        _ => panic!("Expected SequenceGap event"),
    }
}

#[test]
fn test_stream_monitor_tracks_multiple_streams_independently() {
    let mut monitor = StreamMonitor::default();

    monitor.process_event("alpaca", "AAPL", 1, now_nanos());
    let aapl_events = monitor.process_event("alpaca", "AAPL", 3, now_nanos());

    monitor.process_event("alpaca", "MSFT", 1, now_nanos());
    let msft_events = monitor.process_event("alpaca", "MSFT", 2, now_nanos());

    assert_eq!(aapl_events.len(), 1);
    assert!(aapl_events.iter().any(|e| matches!(e, StreamControlEvent::SequenceGap { .. })));

    assert!(msft_events.is_empty());

    let stats = monitor.get_statistics();
    assert_eq!(stats.total_streams, 2);
    assert_eq!(stats.total_gaps, 1);
}

#[test]
fn test_stream_monitor_detects_duplicate_sequences() {
    let mut monitor = StreamMonitor::default();

    monitor.process_event("alpaca", "SPY", 1, now_nanos());
    monitor.process_event("alpaca", "SPY", 2, now_nanos());

    let events = monitor.process_event("alpaca", "SPY", 2, now_nanos());

    assert_eq!(events.len(), 1);
    assert!(matches!(events[0], StreamControlEvent::DuplicateSequence { .. }));

    if let StreamControlEvent::DuplicateSequence { seq_no, .. } = &events[0] {
        assert_eq!(*seq_no, 2);
    }
}

#[test]
fn test_stream_monitor_detects_sequence_reset() {
    let mut monitor = StreamMonitor::default();

    monitor.process_event("alpaca", "QQQ", 5000, now_nanos());
    monitor.process_event("alpaca", "QQQ", 5001, now_nanos());

    let events = monitor.process_event("alpaca", "QQQ", 1, now_nanos());

    assert_eq!(events.len(), 1);
    assert!(matches!(events[0], StreamControlEvent::SequenceReset { .. }));
}

#[test]
fn test_stream_monitor_reset() {
    let mut monitor = StreamMonitor::default();

    monitor.process_event("alpaca", "AAPL", 1, now_nanos());
    monitor.process_event("alpaca", "MSFT", 1, now_nanos());

    assert_eq!(monitor.get_monitored_streams().len(), 2);

    monitor.reset();

    assert!(monitor.get_monitored_streams().is_empty());
}

#[test]
fn stream_monitor_integration_test_control_event_getters() {
    let gap_event = StreamControlEvent::SequenceGap {
        source: "alpaca".to_string(),
        symbol: "AAPL".to_string(),
        expected_seq: 5,
        actual_seq: 8,
        gap_size: 3,
        timestamp: "2024-01-01T00:00:00Z".to_string(),
    };

    assert_eq!(gap_event.event_type(), "sequence_gap");
    assert_eq!(gap_event.source(), "alpaca");
    assert_eq!(gap_event.symbol(), "AAPL");

    let disconnect_event = StreamControlEvent::SilentDisconnect {
        source: "polygon".to_string(),
        symbol: "TSLA".to_string(),
        last_event_time: "2024-01-01T00:00:00Z".to_string(),
        silence_duration_ms: 35000,
        threshold_ms: 30000,
    };

    assert_eq!(disconnect_event.event_type(), "silent_disconnect");
    assert_eq!(disconnect_event.source(), "polygon");
    assert_eq!(disconnect_event.symbol(), "TSLA");
}

#[test]
fn test_stream_monitor_ignores_disabled_checks() {
    let config = StreamMonitorConfig {
        check_sequence_gaps: false,
        check_duplicates: false,
        ..Default::default()
    };

    let mut monitor = StreamMonitor::new(config);

    monitor.process_event("alpaca", "AAPL", 1, now_nanos());

    let events = monitor.process_event("alpaca", "AAPL", 10, now_nanos());
    assert!(events.is_empty());

    let events = monitor.process_event("alpaca", "AAPL", 10, now_nanos());
    assert!(events.is_empty());
}

#[test]
fn test_stream_statistics() {
    let mut monitor = StreamMonitor::default();

    monitor.process_event("alpaca", "AAPL", 1, now_nanos());
    monitor.process_event("alpaca", "MSFT", 1, now_nanos());
    monitor.process_event("polygon", "TSLA", 1, now_nanos());

    let stats = monitor.get_statistics();
    assert_eq!(stats.total_streams, 3);
    assert_eq!(stats.healthy_streams, 3);
    // every stream is healthy: the health percentage is 100
    assert_eq!(stats.healthy_streams, stats.total_streams);
}

#[test]
fn test_stream_monitor_statistics() {
    let mut monitor = StreamMonitor::default();

    monitor.process_event("source1", "SYM1", 1, now_nanos());
    monitor.process_event("source1", "SYM1", 3, now_nanos());

    monitor.process_event("source2", "SYM2", 1, now_nanos());
    monitor.process_event("source2", "SYM2", 2, now_nanos());
    monitor.process_event("source2", "SYM2", 2, now_nanos());

    monitor.process_event("source3", "SYM3", 1, now_nanos());
    monitor.process_event("source3", "SYM3", 2, now_nanos());

    let stats = monitor.get_statistics();
    assert_eq!(stats.total_streams, 3);
    assert_eq!(stats.healthy_streams, 3);
    assert_eq!(stats.total_gaps, 1);
    assert_eq!(stats.total_disconnects, 0);
    assert_eq!(stats.healthy_streams, stats.total_streams);
}

#[test]
fn test_stream_monitor_health_percentage() {
    let mut monitor = StreamMonitor::default();

    let stats = monitor.get_statistics();
    assert_eq!(stats.total_streams, 0);

    monitor.process_event("s1", "A", 1, now_nanos());
    monitor.process_event("s2", "B", 1, now_nanos());

    let stats = monitor.get_statistics();
    assert_eq!(stats.total_streams, 2);
    assert_eq!(stats.healthy_streams, stats.total_streams);
}

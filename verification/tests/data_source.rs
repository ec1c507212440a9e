use broker_gateway_service::domain::data_source::{DataSource, ExecutionConfig};

#[test]
fn test_live_data_source() {
    let ds = DataSource::live("alpaca");
    assert!(ds.is_live());
    assert!(!ds.is_replay());
    assert!(!ds.is_mock());
    assert!(ds.requires_connectivity());
    assert!(!ds.uses_journal());
    assert_eq!(ds.broker_id(), Some("alpaca"));
    assert_eq!(ds.to_string(), "live:alpaca");
}

#[test]
fn test_replay_data_source() {
    let ds = DataSource::replay("2024-01-15");
    assert!(!ds.is_live());
    assert!(ds.is_replay());
    assert!(!ds.is_mock());
    assert!(!ds.requires_connectivity());
    assert!(ds.uses_journal());
    assert_eq!(ds.replay_query(), Some("2024-01-15"));
    assert_eq!(ds.to_string(), "replay:2024-01-15");
}

#[test]
fn test_mock_data_source() {
    let ds = DataSource::mock("scenario_1");
    assert!(!ds.is_live());
    assert!(!ds.is_replay());
    assert!(ds.is_mock());
    assert!(!ds.requires_connectivity());
    assert!(!ds.uses_journal());
    assert_eq!(ds.to_string(), "mock:scenario_1");
}

#[test]
fn test_replay_looping() {
    let ds = DataSource::replay_looping("AAPL");
    match ds {
        DataSource::Replay { query, loop_replay, .. } => {
            assert_eq!(query, "AAPL");
            assert!(loop_replay);
        }
        _ => panic!("Expected Replay data source"),
    }
}

#[test]
fn test_replay_with_latency() {
    let ds = DataSource::replay("test").with_latency(100);
    match ds {
        DataSource::Replay { latency_ms, .. } => {
            assert_eq!(latency_ms, 100);
        }
        _ => panic!("Expected Replay data source"),
    }
}

#[test]
fn test_hybrid_data_source() {
    let primary = Box::new(DataSource::live("alpaca"));
    let fallback = Box::new(DataSource::mock("fallback"));
    let ds = DataSource::Hybrid { primary, fallback, error_threshold: 3 };

    assert!(ds.is_hybrid());
    assert!(ds.requires_connectivity()); // Primary is live
    assert!(!ds.uses_journal()); // Neither uses journal
}

#[test]
fn test_execution_config_live() {
    let config = ExecutionConfig::live("alpaca");
    assert!(config.is_live());
    assert!(!config.verbose_logging);
    assert_eq!(config.timeout_ms, 30000);
}

#[test]
fn test_execution_config_paper() {
    let config = ExecutionConfig::paper_with_replay("2024-01-15");
    assert!(!config.is_live());
    assert!(config.data_source.is_replay());
    assert!(config.verbose_logging);
}

#[test]
fn data_source_test_execution_config_backtest() {
    let config = ExecutionConfig::backtest("bull_market");
    assert!(config.data_source.is_mock());
    assert!(config.verbose_logging);
}

#[test]
fn data_source_test_execution_config_builder() {
    let config = ExecutionConfig::live("alpaca").with_verbose_logging().with_timeout(5000);

    assert!(config.verbose_logging);
    assert_eq!(config.timeout_ms, 5000);
}

#[test]
fn test_default_data_source_is_mock() {
    let ds: DataSource = Default::default();
    assert!(ds.is_mock());
}

#[test]
fn text_forms_of_every_source() {
    assert_eq!(DataSource::replay_looping("AAPL").to_string(), "replay:AAPL:loop");
    assert_eq!(DataSource::replay("AAPL").with_latency(50).to_string(), "replay:AAPL:50ms");
    assert_eq!(DataSource::replay_looping("X").with_latency(7).to_string(), "replay:X:loop:7ms");
    let ds = DataSource::Hybrid {
        primary: Box::new(DataSource::live("alpaca")),
        fallback: Box::new(DataSource::mock("fb")),
        error_threshold: 3,
    };
    assert_eq!(ds.to_string(), "hybrid:live:alpaca:mock:fb:threshold=3");
}

#[test]
fn with_latency_leaves_other_sources_alone() {
    let ds = DataSource::live("alpaca").with_latency(100);
    assert_eq!(ds, DataSource::live("alpaca"));
    assert_eq!(DataSource::mock("m").with_latency(5).to_string(), "mock:m");
}

#[test]
fn hybrid_follows_its_parts() {
    let ds = DataSource::Hybrid {
        primary: Box::new(DataSource::mock("primary")),
        fallback: Box::new(DataSource::replay("q")),
        error_threshold: 1,
    };
    assert!(!ds.requires_connectivity());
    assert!(ds.uses_journal());
    assert!(!ds.is_live());
    assert_eq!(ds.broker_id(), None);
    assert_eq!(ds.replay_query(), None);
}

#[test]
fn default_execution_config_is_quiet_mock() {
    let config = ExecutionConfig::default();
    assert!(config.data_source.is_mock());
    assert!(!config.verbose_logging);
    assert_eq!(config.timeout_ms, 30_000);
    assert_eq!(config.data_source.to_string(), "mock:default");
}

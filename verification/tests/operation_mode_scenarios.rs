use broker_gateway_service::domain::operation_mode::{
    validate_request_for_mode, OperationMode, WorkloadConfig, WorkloadConfigError, WorkloadType,
};

#[test]
fn test_live_mode_allows_all_trading_operations() {
    let config = WorkloadConfig::live_trading();
    assert!(validate_request_for_mode(OperationMode::Live, &config, WorkloadType::LiveTrading).is_ok());
    assert!(validate_request_for_mode(OperationMode::Live, &config, WorkloadType::Query).is_ok());
    assert!(validate_request_for_mode(OperationMode::Live, &config, WorkloadType::MarketDataStreaming).is_ok());
}

#[test]
fn test_live_mode_blocks_bulk_operations_by_default() {
    let config = WorkloadConfig::live_trading();
    let result = validate_request_for_mode(OperationMode::Live, &config, WorkloadType::Reconciliation);
    assert!(result.is_err());
    assert!(matches!(result.unwrap_err(), WorkloadConfigError::WorkloadNotAllowed(_)));
}

#[test]
fn test_paper_mode_allows_bulk_operations() {
    let config = WorkloadConfig::paper_trading();
    assert!(validate_request_for_mode(OperationMode::Paper, &config, WorkloadType::Reconciliation).is_ok());
    let result = validate_request_for_mode(OperationMode::Paper, &config, WorkloadType::HistoricalDataDownload);
    assert!(result.is_err());
}

#[test]
fn test_readonly_mode_blocks_order_submission() {
    let config = WorkloadConfig::backoffice_only();
    assert!(!config.is_workload_allowed(WorkloadType::LiveTrading));

    let config_with_trading = WorkloadConfig {
        mode: OperationMode::ReadOnly,
        allowed_workloads: vec![WorkloadType::LiveTrading, WorkloadType::Query],
        isolate_bulk_operations: false,
        max_concurrent_bulk: 1,
        per_workload_rate_limiting: false,
    };

    let result = validate_request_for_mode(OperationMode::ReadOnly, &config_with_trading, WorkloadType::LiveTrading);
    assert!(result.is_err());
    assert!(matches!(result.unwrap_err(), WorkloadConfigError::InvalidWorkloadForMode { .. }));
}

#[test]
fn test_readonly_mode_allows_queries() {
    let config = WorkloadConfig::backoffice_only();
    assert!(validate_request_for_mode(OperationMode::ReadOnly, &config, WorkloadType::Query).is_ok());
}

#[test]
fn test_offline_mode_blocks_all_broker_operations() {
    let config = WorkloadConfig::backoffice_only();
    assert!(validate_request_for_mode(OperationMode::Offline, &config, WorkloadType::Query).is_err());
    assert!(validate_request_for_mode(OperationMode::Offline, &config, WorkloadType::LiveTrading).is_err());
    assert!(validate_request_for_mode(OperationMode::Offline, &config, WorkloadType::MarketDataStreaming).is_err());
}

#[test]
fn test_bulk_operations_get_lower_rate_limits() {
    let live_limit = WorkloadType::LiveTrading.recommended_rate_limit_rpm();
    let reconciliation_limit = WorkloadType::Reconciliation.recommended_rate_limit_rpm();
    let download_limit = WorkloadType::HistoricalDataDownload.recommended_rate_limit_rpm();

    assert!(live_limit > reconciliation_limit);
    assert!(reconciliation_limit > download_limit);

    assert_eq!(live_limit, 300);
    assert_eq!(reconciliation_limit, 30);
    assert_eq!(download_limit, 10);
}

#[test]
fn test_live_trading_has_highest_priority() {
    assert!(WorkloadType::LiveTrading.priority() < WorkloadType::Query.priority());
    assert!(WorkloadType::Query.priority() < WorkloadType::Reconciliation.priority());
    assert!(WorkloadType::Reconciliation.priority() < WorkloadType::HistoricalDataDownload.priority());
}

#[test]
fn test_bulk_operations_can_be_queued() {
    assert!(WorkloadType::Reconciliation.can_be_queued());
    assert!(WorkloadType::HistoricalDataDownload.can_be_queued());
    assert!(!WorkloadType::LiveTrading.can_be_queued());
}

#[test]
fn test_live_config_isolates_bulk_operations() {
    let config = WorkloadConfig::live_trading();
    assert!(config.isolate_bulk_operations);
    assert_eq!(config.max_concurrent_bulk, 2);
}

#[test]
fn test_backoffice_config_allows_more_bulk_concurrency() {
    let config = WorkloadConfig::backoffice_only();
    assert_eq!(config.max_concurrent_bulk, 5);
}

#[test]
fn test_custom_config_can_allow_specific_workloads() {
    let config = WorkloadConfig {
        mode: OperationMode::Live,
        allowed_workloads: vec![WorkloadType::LiveTrading, WorkloadType::Query],
        isolate_bulk_operations: true,
        max_concurrent_bulk: 1,
        per_workload_rate_limiting: true,
    };

    assert!(config.is_workload_allowed(WorkloadType::LiveTrading));
    assert!(config.is_workload_allowed(WorkloadType::Query));

    assert!(!config.is_workload_allowed(WorkloadType::Administrative));
    assert!(!config.is_workload_allowed(WorkloadType::Reconciliation));
}

#[test]
fn test_empty_allowed_list_means_all_allowed() {
    let config = WorkloadConfig {
        mode: OperationMode::Live,
        allowed_workloads: vec![],
        isolate_bulk_operations: false,
        max_concurrent_bulk: 5,
        per_workload_rate_limiting: false,
    };

    assert!(config.is_workload_allowed(WorkloadType::LiveTrading));
    assert!(config.is_workload_allowed(WorkloadType::Reconciliation));
    assert!(config.is_workload_allowed(WorkloadType::HistoricalDataDownload));
}

#[test]
fn test_config_validation_catches_invalid_combinations() {
    let invalid_config = WorkloadConfig {
        mode: OperationMode::ReadOnly,
        allowed_workloads: vec![WorkloadType::LiveTrading],
        isolate_bulk_operations: false,
        max_concurrent_bulk: 1,
        per_workload_rate_limiting: false,
    };

    let result = invalid_config.validate();
    assert!(result.is_err());
}

#[test]
fn test_operation_mode_display_format() {
    assert_eq!(OperationMode::Live.to_string(), "live");
    assert_eq!(OperationMode::Paper.to_string(), "paper");
    assert_eq!(OperationMode::ReadOnly.to_string(), "readonly");
    assert_eq!(OperationMode::Offline.to_string(), "offline");
}

#[test]
fn test_workload_type_display_format() {
    assert_eq!(WorkloadType::LiveTrading.to_string(), "live_trading");
    assert_eq!(WorkloadType::Reconciliation.to_string(), "reconciliation");
    assert_eq!(WorkloadType::HistoricalDataDownload.to_string(), "historical_download");
    assert_eq!(WorkloadType::MarketDataStreaming.to_string(), "market_data_streaming");
}

#[test]
fn test_error_types_are_send_and_sync() {
    fn assert_send_sync<T: Send + Sync>() {}
    assert_send_sync::<OperationMode>();
    assert_send_sync::<WorkloadType>();
    assert_send_sync::<WorkloadConfig>();
    assert_send_sync::<WorkloadConfigError>();
}

#[test]
fn test_default_configs_are_sensible() {
    let live = WorkloadConfig::live_trading();
    assert_eq!(live.mode, OperationMode::Live);
    assert!(!live.is_workload_allowed(WorkloadType::HistoricalDataDownload));

    let paper = WorkloadConfig::paper_trading();
    assert_eq!(paper.mode, OperationMode::Paper);
    assert!(paper.is_workload_allowed(WorkloadType::Reconciliation));

    let backoffice = WorkloadConfig::backoffice_only();
    assert_eq!(backoffice.mode, OperationMode::ReadOnly);
    assert!(!backoffice.is_workload_allowed(WorkloadType::LiveTrading));
}

#[test]
fn operation_mode_integration_test_all_modes_allow_offline_operations() {
    for mode in [OperationMode::Live, OperationMode::Paper, OperationMode::ReadOnly, OperationMode::Offline] {
        assert!(mode.allows_offline_operations(), "Mode {:?} should allow offline operations", mode);
    }
}

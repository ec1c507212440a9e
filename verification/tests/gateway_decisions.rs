use broker_gateway_service::application::event_reactor::{ReactorCore, ReactorInput, ReactorStep};
use broker_gateway_service::application::gateway_service::{
    journal_failure, outbound_step, validate_workload, OutboundAction, OutboundEvent,
};
use broker_gateway_service::application::idempotency::IdempotencyStore;
use broker_gateway_service::application::kill_switch::KillSwitch;
use broker_gateway_service::application::observability_service::{
    journal_outcome, ObservabilityError, ObservabilityService,
};
use broker_gateway_service::application::order_submission_service::OrderSubmissionService;
use broker_gateway_service::application::validator::{PriceCheck, RequestValidator};
use broker_gateway_service::domain::broker_error::BrokerError;
use broker_gateway_service::domain::journal::{RequestRecord, ResponseRecord};
use broker_gateway_service::domain::operation_mode::{OperationMode, WorkloadConfig, WorkloadType};
use broker_gateway_service::domain::order::{CancelCmd, ExecutionId, OrderType, StatusQuery};
use broker_gateway_service::patterns::circuit_breaker::CircuitBreaker;
use broker_gateway_service::patterns::telemetry_decorator::TelemetryDecorator;
use broker_gateway_service::ports::journal_repo::{IJournalRepo, JournalError};
use broker_gateway_service::ports::observability::IObservability;
use std::sync::{Arc, Mutex};

#[derive(Default, Clone)]
struct Recorder {
    events: Arc<Mutex<Vec<String>>>,
}

impl IObservability for Recorder {
    fn emit(&self, event: String) {
        self.events.lock().unwrap().push(event);
    }
}

/// A journal that accepts or refuses every write.
struct Journal {
    fail: bool,
    written: Arc<Mutex<Vec<String>>>,
}

impl IJournalRepo for Journal {
    fn persist_outbound(&self, record: RequestRecord) -> Result<(), JournalError> {
        if self.fail {
            return Err(JournalError::CommitFailed("disk full".to_string()));
        }
        self.written.lock().unwrap().push(record.id);
        Ok(())
    }
    fn persist_inbound(&self, record: ResponseRecord) -> Result<(), JournalError> {
        if self.fail {
            return Err(JournalError::TransactionFailed("locked".to_string()));
        }
        self.written.lock().unwrap().push(record.id);
        Ok(())
    }
    fn replay(&self, _query: String) -> Vec<ResponseRecord> {
        Vec::new()
    }
}

const SEC: u64 = 1_000_000_000;

#[test]
fn workloads_refused_by_configuration_then_by_mode() {
    let live = WorkloadConfig::live_trading();
    assert_eq!(validate_workload(&live, WorkloadType::LiveTrading), Ok(()));
    assert_eq!(
        validate_workload(&live, WorkloadType::Reconciliation),
        Err(BrokerError::Unknown(
            "Workload reconciliation is not allowed in current configuration".to_string()
        ))
    );
    let offline = WorkloadConfig {
        mode: OperationMode::Offline,
        allowed_workloads: vec![],
        isolate_bulk_operations: false,
        max_concurrent_bulk: 1,
        per_workload_rate_limiting: false,
    };
    assert_eq!(
        validate_workload(&offline, WorkloadType::Query),
        Err(BrokerError::Unknown(
            "Workload validation failed: Workload query is not compatible with operation mode offline"
                .to_string()
        ))
    );
    assert_eq!(validate_workload(&offline, WorkloadType::Administrative), Ok(()));
}

#[test]
fn journal_refusal_stops_the_operation() {
    let e = JournalError::CommitFailed("disk full".to_string());
    assert_eq!(e.to_string(), "Commit failed: disk full");
    assert_eq!(
        journal_failure(&e),
        BrokerError::Unknown("Journal persistence failed: Commit failed: disk full".to_string())
    );
    assert_eq!(JournalError::SerializationFailed("x".into()).to_string(), "Serialization failed: x");
    assert_eq!(JournalError::TableAccessFailed("t".into()).to_string(), "Table access failed: t");
    let wrapped = ObservabilityError::from(JournalError::TransactionFailed("busy".into()));
    assert_eq!(wrapped.to_string(), "Journal error: Transaction failed: busy");
}

#[test]
fn journal_outcome_reports_only_durable_records() {
    assert_eq!(journal_outcome(Ok(()), "outbound", "AAPL").unwrap(), "outbound: AAPL");
    match journal_outcome(Err(JournalError::CommitFailed("c".into())), "inbound", "x") {
        Err(JournalError::CommitFailed(m)) => assert_eq!(m, "c"),
        other => panic!("unexpected {:?}", other),
    }
}

#[test]
fn observability_service_journals_before_reporting() {
    let rec = Recorder::default();
    let written = Arc::new(Mutex::new(Vec::new()));
    let svc = ObservabilityService::new(
        TelemetryDecorator::new(),
        rec.clone(),
        Journal { fail: false, written: written.clone() },
    );
    let record = RequestRecord { id: "req-1".into(), raw_payload: None, correlation_id: None };
    let event = svc.record_outbound(record).expect("journaled");
    assert_eq!(event.error_message, Some("outbound: req-1".to_string()));
    let resp = ResponseRecord { id: "resp-1".into(), raw_payload: None, correlation_id: None };
    assert!(svc.record_inbound(resp).is_ok());
    let ev = svc.emit_event("custom".to_string());
    assert_eq!(ev.error_message, Some("custom".to_string()));
    assert_eq!(*written.lock().unwrap(), vec!["req-1".to_string(), "resp-1".to_string()]);
    assert_eq!(
        *rec.events.lock().unwrap(),
        vec!["outbound: req-1".to_string(), "inbound: resp-1".to_string(), "custom".to_string()]
    );
}

#[test]
fn observability_service_reports_nothing_when_journal_fails() {
    let rec = Recorder::default();
    let svc = ObservabilityService::new(
        TelemetryDecorator::default(),
        rec.clone(),
        Journal { fail: true, written: Arc::new(Mutex::new(Vec::new())) },
    );
    let record = RequestRecord { id: "req-1".into(), raw_payload: None, correlation_id: None };
    assert!(matches!(svc.record_outbound(record), Err(JournalError::CommitFailed(_))));
    let resp = ResponseRecord { id: "r".into(), raw_payload: None, correlation_id: None };
    assert!(matches!(svc.record_inbound(resp), Err(JournalError::TransactionFailed(_))));
    assert!(rec.events.lock().unwrap().is_empty());
}

#[test]
fn reactor_dispatches_only_to_subscribed_symbols() {
    let mut core = ReactorCore::new();
    assert!(!core.should_stop(false));
    // An event before any subscription is counted but dropped.
    assert_eq!(core.step(ReactorInput::Market("AAPL".into()), false), ReactorStep::Skip);
    let id = match core.step(ReactorInput::Subscribe("AAPL".into()), false) {
        ReactorStep::AddWorker(id) => id,
        other => panic!("unexpected {:?}", other),
    };
    assert_eq!(id.as_u16(), 0);
    assert_eq!(
        core.step(ReactorInput::Market("AAPL".into()), false),
        ReactorStep::Dispatch { symbol_id: id, seq_no: 2 }
    );
    assert_eq!(core.step(ReactorInput::Market("MSFT".into()), false), ReactorStep::Skip);
    // A second handler for the same symbol shares its ID.
    assert_eq!(core.step(ReactorInput::Subscribe("AAPL".into()), false), ReactorStep::AddWorker(id));
    assert_eq!(core.step(ReactorInput::Unsubscribe("AAPL".into()), false), ReactorStep::RemoveWorkers(id));
    assert_eq!(core.step(ReactorInput::Unsubscribe("AAPL".into()), false), ReactorStep::Skip);
    assert_eq!(core.step(ReactorInput::Market("AAPL".into()), false), ReactorStep::Skip);
}

#[test]
fn reactor_stops_on_kill_switch_shutdown_or_closed_channels() {
    let mut core = ReactorCore::new();
    core.step(ReactorInput::Subscribe("AAPL".into()), false);
    assert_eq!(core.step(ReactorInput::Market("AAPL".into()), true), ReactorStep::Stop);
    assert!(core.should_stop(true));
    assert_eq!(core.step(ReactorInput::Closed, false), ReactorStep::Stop);
    assert!(!core.should_stop(false));
    assert_eq!(core.step(ReactorInput::Shutdown, false), ReactorStep::Skip);
    assert!(core.should_stop(false));
}

fn service() -> OrderSubmissionService {
    OrderSubmissionService::new(RequestValidator::new(), IdempotencyStore::new(), "alpaca")
}

fn breaker(threshold: u32) -> CircuitBreaker<Recorder> {
    CircuitBreaker::new("alpaca", threshold, 30, Recorder::default())
}

#[test]
fn submission_refuses_duplicates_after_success() {
    let mut svc = service();
    let mut cb = breaker(3);
    let mut ks = KillSwitch::new();
    let client = Some("client-1".to_string());
    let key = svc
        .begin_submit(&cb, "AAPL", 10, OrderType::Market, PriceCheck::Missing, PriceCheck::Missing, PriceCheck::Missing, &client, SEC)
        .expect("valid order");
    assert_eq!(key, "client-1");
    let id = svc
        .finish_submit(&mut cb, &mut ks, key, Ok(ExecutionId("exec-1".into())), SEC)
        .expect("accepted");
    assert_eq!(id.0, "exec-1");
    assert!(svc.is_order_open(&ks, &id));
    assert_eq!(svc.open_order_count(&ks), 1);
    let again = svc.begin_submit(&cb, "AAPL", 10, OrderType::Market, PriceCheck::Missing, PriceCheck::Missing, PriceCheck::Missing, &client, SEC);
    assert_eq!(again, Err(BrokerError::Unknown("duplicate order".to_string())));
    // Another client order ID is independent.
    let other = Some("client-2".to_string());
    assert!(svc
        .begin_submit(&cb, "AAPL", 10, OrderType::Market, PriceCheck::Missing, PriceCheck::Missing, PriceCheck::Missing, &other, SEC)
        .is_ok());
    // Without a client order ID the symbol is the key.
    assert_eq!(
        svc.begin_submit(&cb, "MSFT", 1, OrderType::Market, PriceCheck::Missing, PriceCheck::Missing, PriceCheck::Missing, &None, SEC),
        Ok("MSFT".to_string())
    );
    assert!(svc.mark_order_filled(&mut ks, &id));
    assert!(!svc.is_order_open(&ks, &id));
}

#[test]
fn submission_failures_open_the_breaker_and_block_calls() {
    let mut svc = service();
    let mut cb = breaker(1);
    let mut ks = KillSwitch::new();
    let key = svc
        .begin_submit(&cb, "AAPL", 10, OrderType::Market, PriceCheck::Missing, PriceCheck::Missing, PriceCheck::Missing, &None, SEC)
        .unwrap();
    let failed = svc.finish_submit(&mut cb, &mut ks, key, Err(BrokerError::ConnectionFailed("timeout".into())), SEC);
    assert_eq!(failed, Err(BrokerError::ConnectionFailed("timeout".into())));
    assert_eq!(ks.open_order_count(), 0);
    // The failed order was not recorded, but the breaker is now open.
    assert_eq!(
        svc.begin_submit(&cb, "AAPL", 10, OrderType::Market, PriceCheck::Missing, PriceCheck::Missing, PriceCheck::Missing, &None, 2 * SEC),
        Err(BrokerError::Unknown("circuit breaker open".to_string()))
    );
    let cancel = CancelCmd { execution_id: ExecutionId("exec-1".into()), correlation_id: None };
    assert_eq!(svc.begin_cancel(&cb, &cancel, 2 * SEC), Err(BrokerError::Unknown("circuit breaker open".into())));
    assert_eq!(svc.pre_flight(&cb, 40 * SEC), Ok(()));
    // Validation comes before the breaker.
    assert_eq!(
        svc.begin_submit(&cb, "", 10, OrderType::Market, PriceCheck::Missing, PriceCheck::Missing, PriceCheck::Missing, &None, 2 * SEC),
        Err(BrokerError::Unknown("symbol cannot be empty".to_string()))
    );
}

#[test]
fn cancel_replace_and_query_update_the_breaker() {
    let svc = service();
    let mut cb = breaker(2);
    let mut ks = KillSwitch::new();
    ks.track_open_order(&ExecutionId("exec-1".into()));
    let cancel = CancelCmd { execution_id: ExecutionId("exec-1".into()), correlation_id: None };
    assert_eq!(svc.begin_cancel(&cb, &cancel, SEC), Ok(()));
    assert_eq!(svc.finish_cancel(&mut cb, &mut ks, &cancel, Ok(()), SEC), Ok(()));
    assert_eq!(ks.open_order_count(), 0);

    assert_eq!(svc.begin_replace(&cb, "exec-1", "TSLA", Some(5), PriceCheck::Valid, SEC), Ok(()));
    assert_eq!(
        svc.begin_replace(&cb, "", "TSLA", None, PriceCheck::Missing, SEC),
        Err(BrokerError::Unknown("execution_id cannot be empty".to_string()))
    );
    let query = StatusQuery { execution_id: ExecutionId("exec-1".into()), correlation_id: None };
    assert_eq!(svc.begin_query(&cb, &query, SEC), Ok(()));
    let r: Result<u32, BrokerError> = svc.finish_call(&mut cb, Err(BrokerError::RateLimited), SEC);
    assert_eq!(r, Err(BrokerError::RateLimited));
    let r: Result<u32, BrokerError> = svc.finish_call(&mut cb, Err(BrokerError::RateLimited), SEC);
    assert!(r.is_err());
    assert!(cb.is_open_at(2 * SEC));
    assert_eq!(svc.begin_query(&cb, &query, 2 * SEC), Err(BrokerError::Unknown("circuit breaker open".into())));
}

#[test]
fn outbound_requests_are_checked_then_journaled_then_executed() {
    let live = WorkloadConfig::live_trading();
    assert!(matches!(
        outbound_step(&live, WorkloadType::LiveTrading, true, true, OutboundEvent::Start),
        OutboundAction::CheckRisk
    ));
    assert!(matches!(
        outbound_step(&live, WorkloadType::Query, false, false, OutboundEvent::Start),
        OutboundAction::Journal
    ));
    match outbound_step(&live, WorkloadType::Reconciliation, true, true, OutboundEvent::Start) {
        OutboundAction::Fail(e) => assert_eq!(
            e,
            BrokerError::Unknown("Workload reconciliation is not allowed in current configuration".to_string())
        ),
        _ => panic!("expected a refusal"),
    }
    match outbound_step(&live, WorkloadType::LiveTrading, true, true, OutboundEvent::RiskChecked(Err(BrokerError::RateLimited))) {
        OutboundAction::Fail(e) => assert_eq!(e, BrokerError::RateLimited),
        _ => panic!("expected a refusal"),
    }
    assert!(matches!(
        outbound_step(&live, WorkloadType::LiveTrading, true, true, OutboundEvent::RiskChecked(Ok(()))),
        OutboundAction::Journal
    ));
    let disk_full = || Err(JournalError::CommitFailed("disk full".to_string()));
    match outbound_step(&live, WorkloadType::LiveTrading, true, true, OutboundEvent::Journaled(disk_full())) {
        OutboundAction::Fail(e) => assert_eq!(
            e,
            BrokerError::Unknown("Journal persistence failed: Commit failed: disk full".to_string())
        ),
        _ => panic!("expected a refusal"),
    }
    assert!(matches!(
        outbound_step(&live, WorkloadType::Query, false, false, OutboundEvent::Journaled(disk_full())),
        OutboundAction::Execute
    ));
    assert!(matches!(
        outbound_step(&live, WorkloadType::LiveTrading, true, true, OutboundEvent::Journaled(Ok(()))),
        OutboundAction::Execute
    ));
}

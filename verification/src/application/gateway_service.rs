//! The decisions of the gateway front-end: which workloads a request may
//! run under the current configuration, and what is journaled for each
//! request, with the correlation ID echoed back to the caller.
//!
//! The front-end itself awaits the broker and the market data stream; it
//! calls these functions before and after each await.

use vstd::prelude::*;
use crate::domain::broker_error::{BrokerError, unknown_with};
use crate::domain::journal::{RequestRecord, ResponseRecord};
use crate::domain::market_data::MarketSubscription;
use crate::domain::operation_mode::{
    WorkloadConfig,
    WorkloadConfigError,
    WorkloadType,
    error_text,
    request_compatible,
    validate_request_for_mode,
    workload_allowed,
    workload_name,
};
use crate::domain::order::{CancelCmd, StatusQuery};
use crate::ports::journal_repo::{JournalError, journal_error_text};
use crate::text::{concat2, owned};

verus! {

/// The text of an optional string.
pub open spec fn opt_view(o: Option<String>) -> Option<Seq<char>> {
    match o {
        Some(s) => Some(s@),
        None => None,
    }
}

/// The correlation ID echoed for a request: the caller's own when given,
/// else `fallback`.
pub open spec fn echoed_correlation(given: Option<String>, fallback: Option<Seq<char>>) -> Option<
    Seq<char>,
> {
    match given {
        Some(c) => Some(c@),
        None => fallback,
    }
}

fn copy_opt(o: &Option<String>) -> (r: Option<String>)
    ensures
        opt_view(r) == opt_view(*o),
{
    match o {
        Some(s) => Some(s.clone()),
        None => None,
    }
}

/// Whether `r` refuses workload `w` under `config` as the front-end does:
/// first for a workload the configuration does not list, then for one the
/// operation mode cannot serve.
pub open spec fn workload_verdict(config: WorkloadConfig, w: WorkloadType, r: Result<(), BrokerError>) -> bool {
    if !workload_allowed(config.allowed_workloads@, w) {
        r matches Err(e) && unknown_with(
            e,
            "Workload "@ + workload_name(w) + " is not allowed in current configuration"@,
        )
    } else if !request_compatible(config.mode, w) {
        r matches Err(e) && unknown_with(
            e,
            "Workload validation failed: "@ + error_text(
                WorkloadConfigError::InvalidWorkloadForMode { mode: config.mode, workload: w },
            ),
        )
    } else {
        r is Ok
    }
}

/// Check that a request of workload `workload` may run under `config`.
pub fn validate_workload(config: &WorkloadConfig, workload: WorkloadType) -> (r: Result<(), BrokerError>)
    ensures
        workload_verdict(*config, workload, r),
{
    if !config.is_workload_allowed(workload) {
        let name = workload.to_string();
        let head = concat2("Workload ", name.as_str());
        return Err(BrokerError::Unknown(concat2(head.as_str(), " is not allowed in current configuration")));
    }
    match validate_request_for_mode(config.mode, config, workload) {
        Err(e) => {
            let text = e.to_string();
            Err(BrokerError::Unknown(concat2("Workload validation failed: ", text.as_str())))
        },
        Ok(()) => Ok(()),
    }
}

/// The error returned when the journal refuses an outbound record: the
/// operation is not executed.
pub fn journal_failure(e: &JournalError) -> (r: BrokerError)
    ensures
        unknown_with(r, "Journal persistence failed: "@ + journal_error_text(*e)),
{
    let text = e.to_string();
    BrokerError::Unknown(concat2("Journal persistence failed: ", text.as_str()))
}

/// The correlation ID echoed for an order: its own correlation ID, else its
/// client order ID, else none.
pub fn order_correlation(correlation_id: &Option<String>, client_order_id: &Option<String>) -> (r:
    Option<String>)
    ensures
        opt_view(r) == echoed_correlation(*correlation_id, opt_view(*client_order_id)),
{
    match correlation_id {
        Some(c) => Some(c.clone()),
        None => copy_opt(client_order_id),
    }
}

/// The journal record of an outbound order for `symbol`.
pub fn order_request_record(
    symbol: &str,
    correlation_id: &Option<String>,
    client_order_id: &Option<String>,
    raw_payload: Option<String>,
) -> (r: RequestRecord)
    ensures
        r.id@ == symbol@,
        r.raw_payload == raw_payload,
        opt_view(r.correlation_id) == echoed_correlation(*correlation_id, opt_view(*client_order_id)),
{
    RequestRecord {
        id: owned(symbol),
        raw_payload,
        correlation_id: order_correlation(correlation_id, client_order_id),
    }
}

/// The journal record of the broker's confirmation of an order: keyed by
/// the execution ID, without payload.
pub fn order_response_record(
    execution_id: &str,
    correlation_id: &Option<String>,
    client_order_id: &Option<String>,
) -> (r: ResponseRecord)
    ensures
        r.id@ == execution_id@,
        r.raw_payload is None,
        opt_view(r.correlation_id) == echoed_correlation(*correlation_id, opt_view(*client_order_id)),
{
    ResponseRecord {
        id: owned(execution_id),
        raw_payload: None,
        correlation_id: order_correlation(correlation_id, client_order_id),
    }
}

fn echo_or_id(correlation_id: &Option<String>, id: &str) -> (r: Option<String>)
    ensures
        opt_view(r) == echoed_correlation(*correlation_id, Some(id@)),
{
    match correlation_id {
        Some(c) => Some(c.clone()),
        None => Some(owned(id)),
    }
}

/// The journal record of an outbound cancel (also used for replaces): keyed
/// by the execution ID, which is also the fallback correlation ID.
pub fn cancel_request_record(cmd: &CancelCmd, raw_payload: Option<String>) -> (r: RequestRecord)
    ensures
        r.id@ == cmd.execution_id@,
        r.raw_payload == raw_payload,
        opt_view(r.correlation_id) == echoed_correlation(cmd.correlation_id, Some(cmd.execution_id@)),
{
    let id = cmd.execution_id.0.as_str();
    RequestRecord { id: owned(id), raw_payload, correlation_id: echo_or_id(&cmd.correlation_id, id) }
}

/// The journal record of an outbound status query: keyed by the execution
/// ID, which is also the fallback correlation ID.
pub fn query_request_record(query: &StatusQuery, raw_payload: Option<String>) -> (r: RequestRecord)
    ensures
        r.id@ == query.execution_id@,
        r.raw_payload == raw_payload,
        opt_view(r.correlation_id) == echoed_correlation(query.correlation_id, Some(query.execution_id@)),
{
    let id = query.execution_id.0.as_str();
    RequestRecord { id: owned(id), raw_payload, correlation_id: echo_or_id(&query.correlation_id, id) }
}

/// The journal record of the answer to a status query.
pub fn query_response_record(query: &StatusQuery, raw_payload: Option<String>) -> (r: ResponseRecord)
    ensures
        r.id@ == query.execution_id@,
        r.raw_payload == raw_payload,
        opt_view(r.correlation_id) == echoed_correlation(query.correlation_id, Some(query.execution_id@)),
{
    let id = query.execution_id.0.as_str();
    ResponseRecord { id: owned(id), raw_payload, correlation_id: echo_or_id(&query.correlation_id, id) }
}

/// The journal record of an outbound subscribe or unsubscribe: keyed by the
/// symbol, which is also the fallback correlation ID.
pub fn subscription_request_record(sub: &MarketSubscription, raw_payload: Option<String>) -> (r:
    RequestRecord)
    ensures
        r.id@ == sub.symbol@,
        r.raw_payload == raw_payload,
        opt_view(r.correlation_id) == echoed_correlation(sub.correlation_id, Some(sub.symbol@)),
{
    let id = sub.symbol.as_str();
    RequestRecord { id: owned(id), raw_payload, correlation_id: echo_or_id(&sub.correlation_id, id) }
}

/// What the front-end learned last while preparing an outbound request.
pub enum OutboundEvent {
    /// The request has just arrived.
    Start,
    /// The risk check answered.
    RiskChecked(Result<(), BrokerError>),
    /// The journal answered the write of the outbound record.
    Journaled(Result<(), JournalError>),
}

/// What the front-end does next with an outbound request.
pub enum OutboundAction {
    /// Ask the risk service (kill switch, rate limit).
    CheckRisk,
    /// Write the outbound record to the journal.
    Journal,
    /// Hand the request to the broker.
    Execute,
    /// Refuse the request with this error; nothing more is done.
    Fail(BrokerError),
}

/// The decision of the front-end for a request of workload `w`, where
/// `needs_risk` says whether the request goes through the risk check and
/// `critical` whether it may only run once its outbound record is durable:
/// the workload is checked first, then the risk, then the journal, and
/// the first refusal ends the request.
pub open spec fn outbound_decision(
    config: WorkloadConfig,
    w: WorkloadType,
    needs_risk: bool,
    critical: bool,
    ev: OutboundEvent,
    r: OutboundAction,
) -> bool {
    match ev {
        OutboundEvent::Start => if workload_verdict(config, w, Ok(())) {
            r == if needs_risk {
                OutboundAction::CheckRisk
            } else {
                OutboundAction::Journal
            }
        } else {
            r matches OutboundAction::Fail(e) && workload_verdict(config, w, Err(e))
        },
        OutboundEvent::RiskChecked(Err(e)) => r == OutboundAction::Fail(e),
        OutboundEvent::RiskChecked(Ok(())) => r == OutboundAction::Journal,
        OutboundEvent::Journaled(Err(e)) => if critical {
            r matches OutboundAction::Fail(b) && unknown_with(
                b,
                "Journal persistence failed: "@ + journal_error_text(e),
            )
        } else {
            r == OutboundAction::Execute
        },
        OutboundEvent::Journaled(Ok(())) => r == OutboundAction::Execute,
    }
}

/// The next step of the front-end for a request of workload `workload`
/// after `event`; see [`outbound_decision`].  Orders, cancels and replaces
/// are risk-checked and critical; subscriptions are critical only; status
/// queries are neither.
pub fn outbound_step(
    config: &WorkloadConfig,
    workload: WorkloadType,
    needs_risk: bool,
    critical: bool,
    event: OutboundEvent,
) -> (r: OutboundAction)
    ensures
        outbound_decision(*config, workload, needs_risk, critical, event, r),
{
    match event {
        OutboundEvent::Start => match validate_workload(config, workload) {
            Err(e) => OutboundAction::Fail(e),
            Ok(()) => if needs_risk {
                OutboundAction::CheckRisk
            } else {
                OutboundAction::Journal
            },
        },
        OutboundEvent::RiskChecked(Err(e)) => OutboundAction::Fail(e),
        OutboundEvent::RiskChecked(Ok(())) => OutboundAction::Journal,
        OutboundEvent::Journaled(Err(e)) => if critical {
            OutboundAction::Fail(journal_failure(&e))
        } else {
            OutboundAction::Execute
        },
        OutboundEvent::Journaled(Ok(())) => OutboundAction::Execute,
    }
}

/// A request reaches the broker only once the journal has answered the
/// write of its outbound record, and a critical request only once that
/// record is durable: no step lets it skip the journal.
pub proof fn law_execute_only_after_journal(
    config: WorkloadConfig,
    w: WorkloadType,
    needs_risk: bool,
    critical: bool,
    ev: OutboundEvent,
    r: OutboundAction,
)
    requires
        outbound_decision(config, w, needs_risk, critical, ev, r),
        r is Execute,
    ensures
        ev is Journaled,
        critical ==> (ev matches OutboundEvent::Journaled(Ok(_))),
{
}

} // verus!

//! Control-plane commands from the orchestrator and their acknowledgements.

use vstd::prelude::*;
use crate::clock;
use crate::domain::operation_mode::OperationMode;
use crate::text::owned;

verus! {

/// A command from the orchestrator.
#[derive(Debug, Clone)]
pub enum OrchestrationCommand {
    SetOperationMode(OperationMode),
    ActivateKillSwitch { reason: String, actor: String },
    ClearKillSwitch { reason: String, actor: String },
    ReloadPolicies,
    UpdateCircuitBreaker { failure_threshold: u32, cooldown_secs: u64 },
    ResetCircuitBreaker,
    UpdateRateLimiter { max_requests_per_min: u32, burst_capacity: u32 },
    PauseSymbol { symbol: String },
    ResumeSymbol { symbol: String },
    FlushPendingOrders,
    SetLogLevel { level: String },
    HealthCheck,
}

/// The wire name of a command.
pub open spec fn command_name(c: OrchestrationCommand) -> Seq<char> {
    match c {
        OrchestrationCommand::SetOperationMode(_) => "set_operation_mode"@,
        OrchestrationCommand::ActivateKillSwitch { .. } => "activate_kill_switch"@,
        OrchestrationCommand::ClearKillSwitch { .. } => "clear_kill_switch"@,
        OrchestrationCommand::ReloadPolicies => "reload_policies"@,
        OrchestrationCommand::UpdateCircuitBreaker { .. } => "update_circuit_breaker"@,
        OrchestrationCommand::ResetCircuitBreaker => "reset_circuit_breaker"@,
        OrchestrationCommand::UpdateRateLimiter { .. } => "update_rate_limiter"@,
        OrchestrationCommand::PauseSymbol { .. } => "pause_symbol"@,
        OrchestrationCommand::ResumeSymbol { .. } => "resume_symbol"@,
        OrchestrationCommand::FlushPendingOrders => "flush_pending_orders"@,
        OrchestrationCommand::SetLogLevel { .. } => "set_log_level"@,
        OrchestrationCommand::HealthCheck => "health_check"@,
    }
}

impl OrchestrationCommand {
    /// The wire name of the command.
    pub fn command_type(&self) -> (r: &'static str)
        ensures
            r@ == command_name(*self),
    {
        match self {
            OrchestrationCommand::SetOperationMode(_) => "set_operation_mode",
            OrchestrationCommand::ActivateKillSwitch { .. } => "activate_kill_switch",
            OrchestrationCommand::ClearKillSwitch { .. } => "clear_kill_switch",
            OrchestrationCommand::ReloadPolicies => "reload_policies",
            OrchestrationCommand::UpdateCircuitBreaker { .. } => "update_circuit_breaker",
            OrchestrationCommand::ResetCircuitBreaker => "reset_circuit_breaker",
            OrchestrationCommand::UpdateRateLimiter { .. } => "update_rate_limiter",
            OrchestrationCommand::PauseSymbol { .. } => "pause_symbol",
            OrchestrationCommand::ResumeSymbol { .. } => "resume_symbol",
            OrchestrationCommand::FlushPendingOrders => "flush_pending_orders",
            OrchestrationCommand::SetLogLevel { .. } => "set_log_level",
            OrchestrationCommand::HealthCheck => "health_check",
        }
    }
}

/// Acknowledgement of an orchestration command.
#[derive(Debug, Clone)]
pub struct OrchestrationAck {
    pub command_type: String,
    pub success: bool,
    pub error: Option<String>,
    /// Milliseconds since the UNIX epoch when the acknowledgement was made.
    pub timestamp_ms: u64,
}

impl OrchestrationAck {
    /// A successful acknowledgement stamped with the current time.
    pub fn success(command_type: &str) -> (a: Self)
        ensures
            a.command_type@ == command_type@,
            a.success,
            a.error is None,
    {
        OrchestrationAck {
            command_type: owned(command_type),
            success: true,
            error: None,
            timestamp_ms: clock::now_millis(),
        }
    }

    /// A failed acknowledgement carrying `error`, stamped with the current
    /// time.
    pub fn failure(command_type: &str, error: &str) -> (a: Self)
        ensures
            a.command_type@ == command_type@,
            !a.success,
            a.error is Some && a.error->0@ == error@,
    {
        OrchestrationAck {
            command_type: owned(command_type),
            success: false,
            error: Some(owned(error)),
            timestamp_ms: clock::now_millis(),
        }
    }
}

} // verus!

//! Ports for the application services the gateway front-end consumes.

use vstd::prelude::*;
use crate::domain::broker_error::BrokerError;
use crate::domain::journal::{RequestRecord, ResponseRecord};
use crate::ports::journal_repo::JournalError;

verus! {

/// Enforces the kill switch and rate limits before any broker call.
pub trait IRiskManagementService {
    /// `Ok` when a call for `broker_id` costing `tokens` may proceed.
    fn check(&self, broker_id: &str, tokens: u32) -> Result<(), BrokerError>;

    /// Stop all trading.
    fn activate_kill_switch(&self);

    /// Resume trading.
    fn deactivate_kill_switch(&self);
}

/// Journals outbound commands and inbound confirmations.
pub trait IObservabilityService {
    /// Journal an outbound request; `Ok` once it is durable.
    fn record_outbound(&self, record: RequestRecord) -> Result<(), JournalError>;

    /// Journal an inbound response; `Ok` once it is durable.
    fn record_inbound(&self, record: ResponseRecord) -> Result<(), JournalError>;

    /// Report a non-critical event, without journaling.
    fn emit_event(&self, event: String);
}

} // verus!

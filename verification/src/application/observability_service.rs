//! Journaling, metrics and telemetry of the gateway's external interactions.
//!
//! The journal is the source of truth: a record is reported to observability
//! and telemetry only after the journal has made it durable, and a failed
//! journal write is handed back to the caller, who must then fail the
//! operation.

use vstd::prelude::*;
use crate::domain::journal::{RequestRecord, ResponseRecord};
use crate::patterns::telemetry_decorator::{TelemetryDecorator, TelemetryEvent, legacy_event};
use crate::ports::journal_repo::{IJournalRepo, JournalError, journal_error_text};
use crate::ports::observability::IObservability;
use crate::text::concat2;

verus! {

/// The report of a journaled record: `<direction>: <id>`.
pub open spec fn journal_message(direction: Seq<char>, id: Seq<char>) -> Seq<char> {
    direction + ": "@ + id
}

/// What follows a journal write of the record `id` in `direction`
/// (`outbound` or `inbound`): on success the message to report, on failure
/// the journal's own error, unchanged.
pub fn journal_outcome(persisted: Result<(), JournalError>, direction: &str, id: &str) -> (r: Result<
    String,
    JournalError,
>)
    ensures
        match persisted {
            Ok(()) => r matches Ok(m) && m@ == journal_message(direction@, id@),
            Err(e) => r == Err::<String, JournalError>(e),
        },
{
    match persisted {
        Ok(()) => {
            let head = concat2(direction, ": ");
            Ok(concat2(head.as_str(), id))
        },
        Err(e) => Err(e),
    }
}

/// Journals records and reports them to observability and telemetry.
pub struct ObservabilityService<J, O> {
    telemetry: TelemetryDecorator,
    observability: O,
    journal: J,
}

impl<J, O> ObservabilityService<J, O> {
    /// The telemetry decorator the service reports through.
    pub closed spec fn telemetry_of(&self) -> TelemetryDecorator {
        self.telemetry
    }

    /// The observability sink the service reports to.
    pub closed spec fn observability_of(&self) -> O {
        self.observability
    }

    /// The journal the service writes to.
    pub closed spec fn journal_of(&self) -> J {
        self.journal
    }
}

impl<J: IJournalRepo, O: IObservability> ObservabilityService<J, O> {
    /// A service over the given telemetry decorator, observability sink and
    /// journal.
    pub fn new(telemetry: TelemetryDecorator, observability: O, journal: J) -> (s: Self)
        ensures
            s.telemetry_of() == telemetry,
            s.observability_of() == observability,
            s.journal_of() == journal,
    {
        ObservabilityService { telemetry, observability, journal }
    }

    /// Journal an outbound request, then report `outbound: <id>`.
    ///
    /// The record is handed to the journal's `persist_outbound`, whose answer
    /// decides the result: on success returns the telemetry event that
    /// carries the report; on failure returns the journal's error and
    /// reports nothing.
    pub fn record_outbound(&self, record: RequestRecord) -> (r: Result<TelemetryEvent, JournalError>)
        ensures
            exists|p: Result<(), JournalError>| {
                &&& #[trigger] call_ensures(J::persist_outbound, (&self.journal_of(), record), p)
                &&& (p is Ok <==> r is Ok)
                &&& (p matches Err(e) ==> r == Err::<TelemetryEvent, JournalError>(e))
            },
            r matches Ok(e) ==> legacy_event(e, journal_message("outbound"@, record.id@)),
    {
        let id = record.id.clone();
        let ghost given = record;
        let persist = J::persist_outbound;
        let persisted = persist(&self.journal, record);
        assert(call_ensures(J::persist_outbound, (&self.journal_of(), given), persisted));
        match journal_outcome(persisted, "outbound", id.as_str()) {
            Ok(msg) => Ok(self.report(msg)),
            Err(e) => Err(e),
        }
    }

    /// Journal an inbound response, then report `inbound: <id>`.
    ///
    /// The record is handed to the journal's `persist_inbound`, whose answer
    /// decides the result: on success returns the telemetry event that
    /// carries the report; on failure returns the journal's error and
    /// reports nothing.
    pub fn record_inbound(&self, record: ResponseRecord) -> (r: Result<TelemetryEvent, JournalError>)
        ensures
            exists|p: Result<(), JournalError>| {
                &&& #[trigger] call_ensures(J::persist_inbound, (&self.journal_of(), record), p)
                &&& (p is Ok <==> r is Ok)
                &&& (p matches Err(e) ==> r == Err::<TelemetryEvent, JournalError>(e))
            },
            r matches Ok(e) ==> legacy_event(e, journal_message("inbound"@, record.id@)),
    {
        let id = record.id.clone();
        let ghost given = record;
        let persist = J::persist_inbound;
        let persisted = persist(&self.journal, record);
        assert(call_ensures(J::persist_inbound, (&self.journal_of(), given), persisted));
        match journal_outcome(persisted, "inbound", id.as_str()) {
            Ok(msg) => Ok(self.report(msg)),
            Err(e) => Err(e),
        }
    }

    /// Report a non-critical event without journaling it; returns the
    /// telemetry event that carries it.
    pub fn emit_event(&self, event: String) -> (e: TelemetryEvent)
        ensures
            legacy_event(e, event@),
    {
        self.report(event)
    }

    fn report(&self, msg: String) -> (e: TelemetryEvent)
        ensures
            legacy_event(e, msg@),
    {
        let text = msg.clone();
        self.observability.emit(msg);
        self.telemetry.emit_telemetry(text.as_str())
    }
}

/// Failure of an operation that needs durable journaling.
#[derive(Debug, Clone)]
pub enum ObservabilityError {
    /// The journal could not make the record durable.
    JournalError(JournalError),
}

impl ObservabilityError {
    /// The description, `Journal error: <journal error>`.
    pub fn to_string(&self) -> (s: String)
        ensures
            s@ == match *self {
                ObservabilityError::JournalError(e) => "Journal error: "@ + journal_error_text(e),
            },
    {
        match self {
            ObservabilityError::JournalError(e) => {
                let inner = e.to_string();
                concat2("Journal error: ", inner.as_str())
            },
        }
    }
}

impl From<JournalError> for ObservabilityError {
    fn from(err: JournalError) -> (r: Self)
        ensures
            r == ObservabilityError::JournalError(err),
    {
        ObservabilityError::JournalError(err)
    }
}

impl vstd::std_specs::convert::FromSpecImpl<JournalError> for ObservabilityError {
    open spec fn obeys_from_spec() -> bool {
        true
    }

    open spec fn from_spec(err: JournalError) -> Self {
        ObservabilityError::JournalError(err)
    }
}

} // verus!

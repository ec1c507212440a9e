//! Durable journal of request and response records.
//!
//! The journal is the source of truth for every external interaction: an
//! implementation reports `Ok` only once the record is durable.

use vstd::prelude::*;
use crate::domain::journal::{RequestRecord, ResponseRecord};
use crate::text::concat2;

verus! {

/// Why a journal operation failed.
#[derive(Debug, Clone)]
pub enum JournalError {
    /// The database transaction failed.
    TransactionFailed(String),
    /// The record could not be serialized.
    SerializationFailed(String),
    /// The table could not be opened.
    TableAccessFailed(String),
    /// The commit failed: the data may not be durable.
    CommitFailed(String),
}

/// The human-readable description of a journal error.
pub open spec fn journal_error_text(e: JournalError) -> Seq<char> {
    match e {
        JournalError::TransactionFailed(m) => "Transaction failed: "@ + m@,
        JournalError::SerializationFailed(m) => "Serialization failed: "@ + m@,
        JournalError::TableAccessFailed(m) => "Table access failed: "@ + m@,
        JournalError::CommitFailed(m) => "Commit failed: "@ + m@,
    }
}

impl JournalError {
    /// The description of the error, e.g. `Commit failed: disk full`.
    pub fn to_string(&self) -> (s: String)
        ensures
            s@ == journal_error_text(*self),
    {
        match self {
            JournalError::TransactionFailed(m) => concat2("Transaction failed: ", m.as_str()),
            JournalError::SerializationFailed(m) => concat2("Serialization failed: ", m.as_str()),
            JournalError::TableAccessFailed(m) => concat2("Table access failed: ", m.as_str()),
            JournalError::CommitFailed(m) => concat2("Commit failed: ", m.as_str()),
        }
    }
}

/// Durable storage for journal records, implemented by the storage adapters.
///
/// `persist_outbound` and `persist_inbound` return `Ok` only after the
/// record is on disk.
pub trait IJournalRepo {
    /// Persist an outbound request.
    fn persist_outbound(&self, record: RequestRecord) -> Result<(), JournalError>;

    /// Persist an inbound response.
    fn persist_inbound(&self, record: ResponseRecord) -> Result<(), JournalError>;

    /// The responses that match `query`.
    fn replay(&self, query: String) -> Vec<ResponseRecord>;
}

} // verus!

//! The envelope in which the event reactor hands market events to handlers.

use vstd::prelude::*;

verus! {

/// A market event with the metadata used for gap detection and end-to-end
/// latency: its number in arrival order, the time it was taken in
/// (nanoseconds on the clock of `crate::clock::now_nanos`) and its source.
#[derive(Debug, Clone)]
pub struct ReactorEvent<E> {
    pub seq_no: u64,
    pub ingestion_ts: u64,
    /// Feed the event came from, e.g. `alpaca/iex`.
    pub source: String,
    pub inner: E,
}

} // verus!

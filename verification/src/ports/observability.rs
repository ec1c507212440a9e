//! Port through which the core reports what happens to it.

use vstd::prelude::*;

verus! {

/// Receiver of human-readable observability events (metrics, logs).
/// Implemented by the application's adapters.
pub trait IObservability {
    /// Record one event.
    fn emit(&self, event: String);
}

} // verus!

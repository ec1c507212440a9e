//! Parts of the envelope exchanged with the execution service.

use vstd::prelude::*;

verus! {

/// Recommendation to the execution service on handling back-pressure.
#[derive(Debug, Clone, Copy, PartialEq, Eq, Structural)]
pub enum BackPressureRecommendation {
    /// Continue normal operation.
    Normal,
    /// Slow down the request rate.
    SlowDown,
    /// Pause sending requests temporarily.
    Pause,
}

/// An error answer to the execution service.
#[derive(Debug, Clone)]
pub struct ErrorPayload {
    pub correlation_id: Option<String>,
    pub code: String,
    pub message: String,
}

} // verus!

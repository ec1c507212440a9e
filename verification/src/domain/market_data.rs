//! Market data subscriptions.

use vstd::prelude::*;

verus! {

/// A subscription to one symbol's market data.
#[derive(Clone, Debug)]
pub struct MarketSubscription {
    pub symbol: String,
    /// Optional correlation ID for end-to-end request tracking; echoed back
    /// in the response when given.
    pub correlation_id: Option<String>,
}

/// A command for the market data stream.
#[derive(Clone, Debug)]
pub enum MarketDataCommand {
    Subscribe(MarketSubscription),
    Unsubscribe(MarketSubscription),
}

} // verus!

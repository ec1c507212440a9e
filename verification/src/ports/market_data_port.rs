//! Port for market data subscriptions.

use vstd::prelude::*;
use crate::domain::market_data::MarketSubscription;

verus! {

/// Subscribes the gateway to market data streams; implemented by the
/// market data adapters.
pub trait IMarketDataPort {
    /// Start streaming the subscription's symbol.
    fn subscribe(&self, sub: MarketSubscription);

    /// Stop streaming the subscription's symbol.
    fn unsubscribe(&self, sub: MarketSubscription);
}

} // verus!

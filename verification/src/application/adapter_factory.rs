//! Choice of the broker adapter for a broker configuration.

use vstd::prelude::*;
use crate::domain::broker_config::BrokerConfig;
use crate::text::str_eq;

verus! {

/// The kinds of broker adapter the gateway can run.
#[derive(Debug, Clone, Copy, PartialEq, Eq, Structural)]
pub enum AdapterKind {
    /// Broker REST API.
    Rest,
    /// Broker WebSocket API.
    WebSocket,
    /// FIX session.
    Fix,
    /// Synthetic responses, no broker.
    Mock,
}

/// The adapter for a broker named `name`: `rest`, `websocket` and `fix`
/// select those transports; any other name runs the mock adapter.
pub open spec fn adapter_for(name: Seq<char>) -> AdapterKind {
    if name == "rest"@ {
        AdapterKind::Rest
    } else if name == "websocket"@ {
        AdapterKind::WebSocket
    } else if name == "fix"@ {
        AdapterKind::Fix
    } else {
        AdapterKind::Mock
    }
}

/// Chooses broker adapters.
pub struct AdapterFactory;

impl AdapterFactory {
    /// The adapter to run for `config`; see [`adapter_for`].
    pub fn create_adapter(&self, config: BrokerConfig) -> (k: AdapterKind)
        ensures
            k == adapter_for(config.name@),
    {
        let name = config.name.as_str();
        if str_eq(name, "rest") {
            AdapterKind::Rest
        } else if str_eq(name, "websocket") {
            AdapterKind::WebSocket
        } else if str_eq(name, "fix") {
            AdapterKind::Fix
        } else {
            AdapterKind::Mock
        }
    }
}

} // verus!

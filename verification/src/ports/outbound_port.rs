//! Port for the raw broker connection.

use vstd::prelude::*;
use crate::domain::request::{ConnectionConfig, RequestEnvelope, ResponseEnvelope};

verus! {

/// Sends requests over a broker connection; implemented by the transport
/// adapters.
pub trait IBrokerOutboundPort {
    /// Send one request and wait for its response.
    fn send(&self, req: RequestEnvelope) -> ResponseEnvelope;

    /// Open a connection as configured.
    fn open_connection(&self, config: ConnectionConfig);

    /// Close the connection `conn_id`.
    fn close_connection(&self, conn_id: String);

    /// Keep the connection `conn_id` alive.
    fn heartbeat(&self, conn_id: String);
}

} // verus!

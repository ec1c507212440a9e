//! Envelopes and identifiers used by the connection layer.

use vstd::prelude::*;

verus! {

/// A request carried to a broker, identified by its correlation ID.
#[derive(Clone, Debug)]
pub struct RequestEnvelope {
    pub correlation_id: String,
}

/// A broker's answer to a [`RequestEnvelope`].
#[derive(Clone, Debug)]
pub struct ResponseEnvelope {
    pub correlation_id: String,
    pub ok: bool,
}

/// What is needed to open a connection to a broker.
#[derive(Clone, Debug)]
pub struct ConnectionConfig {
    pub broker_id: String,
}

/// An open connection to a broker.
#[derive(Clone, Debug)]
pub struct Connection {
    pub conn_id: String,
}

impl View for Connection {
    type V = Seq<char>;

    open spec fn view(&self) -> Seq<char> {
        self.conn_id@
    }
}

/// Health of a connection or service.
#[derive(Clone, Debug)]
pub struct Health {
    pub ok: bool,
}

/// A broker's identifier.
#[derive(Clone, Debug)]
pub struct BrokerId(pub String);

impl View for BrokerId {
    type V = Seq<char>;

    open spec fn view(&self) -> Seq<char> {
        self.0@
    }
}

/// An error reported by a broker adapter, as text.
#[derive(Clone, Debug)]
pub struct BrokerAdapterError(pub String);

} // verus!

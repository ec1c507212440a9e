//! Broker gateway core: order validation, idempotency, risk guards,
//! stream monitoring and the configuration that decides which workloads
//! the gateway accepts.

pub mod text;
pub mod clock;
pub mod application;
pub mod ports;
pub mod patterns;
pub mod domain;
pub mod infrastructure;

pub mod circuit_breaker;
pub mod retry_policy;
pub mod telemetry_decorator;

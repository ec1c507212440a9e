pub mod idempotency;
pub mod stream_monitor;
pub mod kill_switch;
pub mod connection_manager;
pub mod validator;
pub mod observability_service;
pub mod gateway_service;
pub mod event_reactor;
pub mod order_submission_service;
pub mod adapter_factory;
pub mod risk_management;

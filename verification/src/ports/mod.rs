pub mod observability;
pub mod journal_repo;
pub mod market_data_port;
pub mod outbound_port;
pub mod service_traits;
pub mod event_handler;

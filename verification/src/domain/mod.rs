pub mod order;
pub mod request;
pub mod operation_mode;
pub mod data_source;
pub mod orchestration;
pub mod journal;
pub mod market_data;
pub mod wire_message;
pub mod broker_config;
pub mod broker_error;

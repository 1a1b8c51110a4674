pub mod client;
pub mod configuration;
pub mod error_tracker;
pub mod fetch;

//! The configuration store and the filter for file-watch events.

pub mod config_event_handler;
pub mod locate;
pub mod store;

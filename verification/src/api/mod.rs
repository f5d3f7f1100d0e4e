//! The surface that applications program against.

pub mod client_config;
pub mod config;
pub mod error;

pub use crate::api::config::{ConfigResponse, ConfigService};

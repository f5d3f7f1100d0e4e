//! The link to the server: messages and connection.

pub mod conn;
pub mod pending;
pub mod request;
pub mod response;

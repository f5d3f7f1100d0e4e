//! Client-side engine of a configuration-management SDK.
//!
//! The crate holds the decisions of the client: how configuration items are
//! keyed and cached, which listeners are told about a change and in which
//! order, how requests are matched with their responses, and how messages
//! pushed by the server are answered. Sending and receiving is left to the
//! caller, who feeds events in and carries the returned actions out.

pub mod api;
pub mod common;
pub mod config;

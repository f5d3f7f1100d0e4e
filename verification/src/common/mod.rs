//! What the services of the client share.

pub mod remote;

//! Requests, in both directions.

use std::collections::HashMap;
use vstd::prelude::*;

pub mod client_request;
pub mod server_request;

verus! {

/// Type identifier of the legacy health check.
pub const TYPE_SERVER_CHECK_CLIENT_REQUEST: &'static str = "ServerCheckRequest";

/// Type identifier of the connection setup.
pub const TYPE_CONNECTION_SETUP_CLIENT_REQUEST: &'static str = "ConnectionSetupRequest";

/// Type identifier of the keep-alive probe that the server sends.
pub const TYPE_CLIENT_DETECTION_SERVER_REQUEST: &'static str = "ClientDetectionRequest";

/// Type identifier of the reset that the server sends.
pub const TYPE_CONNECT_RESET_SERVER_REQUEST: &'static str = "ConnectResetRequest";

/// The version that the client announces when it sets a connection up.
pub const CLIENT_VERSION: &'static str = "2.1.0";

/// What every request carries, whichever side sends it.
pub trait Request {
    /// The token that pairs the request with its response.
    fn get_request_id(&self) -> &String;

    /// The headers of the envelope; may be empty.
    fn get_headers(&self) -> &HashMap<String, String>;

    /// The type identifier of the envelope.
    fn get_type_url(&self) -> &'static str;
}

} // verus!

//! Responses, in both directions.

use vstd::prelude::*;

pub mod client_response;

verus! {

/// Type identifier of the answer to a keep-alive probe.
pub const TYPE_CLIENT_DETECTION_CLIENT_RESPONSE: &'static str = "ClientDetectionResponse";

/// Type identifier of the answer to a reset.
pub const TYPE_CONNECT_RESET_CLIENT_RESPONSE: &'static str = "ConnectResetResponse";

/// Type identifier of the answer to a config query.
pub const TYPE_CONFIG_QUERY_SERVER_RESPONSE: &'static str = "ConfigQueryResponse";

/// Type identifier of the answer to a listen registration.
pub const TYPE_CONFIG_CHANGE_BATCH_LISTEN_RESPONSE: &'static str =
    "ConfigChangeBatchListenResponse";

/// Type identifier of the answer to a change notification.
pub const TYPE_CONFIG_CHANGE_NOTIFY_CLIENT_RESPONSE: &'static str = "ConfigChangeNotifyResponse";

/// The result code that denotes success.
pub const RESULT_CODE_SUCCESS: i32 = 200;

/// What every response carries, whichever side sends it.
pub trait Response {
    /// Whether the result code denotes success.
    fn is_success(&self) -> bool;

    /// The connection that the response belongs to, where it names one.
    fn get_connection_id(&self) -> Option<&String>;

    /// The token of the request that is answered.
    fn get_request_id(&self) -> Option<&String>;

    /// The human-readable message that comes with a failure.
    fn get_message(&self) -> Option<&String>;

    /// The error code that comes with a failure.
    fn get_error_code(&self) -> i32;

    /// The type identifier of the envelope.
    fn get_type_url(&self) -> &'static str;
}

} // verus!

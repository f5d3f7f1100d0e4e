//! Responses that the client sends about configuration items.

use crate::common::remote::response::{
    Response, RESULT_CODE_SUCCESS, TYPE_CONFIG_CHANGE_NOTIFY_CLIENT_RESPONSE,
};
use vstd::prelude::*;

verus! {

/// The acknowledgement of a change notification.
#[derive(Clone, Debug, PartialEq, Eq)]
pub struct ConfigChangeNotifyClientResponse {
    pub request_id: Option<String>,
    pub result_code: i32,
    pub error_code: i32,
    pub message: Option<String>,
}

impl Response for ConfigChangeNotifyClientResponse {
    fn is_success(&self) -> (r: bool)
        ensures
            r == (self.result_code == RESULT_CODE_SUCCESS),
    {
        RESULT_CODE_SUCCESS == self.result_code
    }

    fn get_connection_id(&self) -> (r: Option<&String>)
        ensures
            r.is_none(),
    {
        None
    }

    fn get_request_id(&self) -> (r: Option<&String>)
        ensures
            r.is_some() == self.request_id.is_some(),
            r.is_some() ==> *r.unwrap() == self.request_id.unwrap(),
    {
        self.request_id.as_ref()
    }

    fn get_message(&self) -> (r: Option<&String>)
        ensures
            r.is_some() == self.message.is_some(),
            r.is_some() ==> *r.unwrap() == self.message.unwrap(),
    {
        self.message.as_ref()
    }

    fn get_error_code(&self) -> (r: i32)
        ensures
            r == self.error_code,
    {
        self.error_code
    }

    fn get_type_url(&self) -> (r: &'static str)
        ensures
            r@ == TYPE_CONFIG_CHANGE_NOTIFY_CLIENT_RESPONSE@,
    {
        TYPE_CONFIG_CHANGE_NOTIFY_CLIENT_RESPONSE
    }
}

impl ConfigChangeNotifyClientResponse {
    /// The successful acknowledgement of the notification sent under
    /// `request_id`.
    pub fn new(request_id: String) -> (r: Self)
        ensures
            r.request_id == Some(request_id),
            r.result_code == RESULT_CODE_SUCCESS,
            r.error_code == 0,
            r.message.is_none(),
    {
        ConfigChangeNotifyClientResponse {
            request_id: Some(request_id),
            result_code: RESULT_CODE_SUCCESS,
            error_code: 0,
            message: None,
        }
    }
}

} // verus!

//! Responses that the client sends about the connection itself.

use crate::common::remote::response::{
    Response, RESULT_CODE_SUCCESS, TYPE_CLIENT_DETECTION_CLIENT_RESPONSE,
    TYPE_CONNECT_RESET_CLIENT_RESPONSE,
};
use vstd::prelude::*;

verus! {

/// The acknowledgement of a keep-alive probe.
#[derive(Clone, Debug, PartialEq, Eq)]
pub struct ClientDetectionClientResponse {
    pub request_id: Option<String>,
    pub result_code: i32,
    pub error_code: i32,
    pub message: Option<String>,
}

impl Response for ClientDetectionClientResponse {
    fn is_success(&self) -> (r: bool)
        ensures
            r == (self.result_code == RESULT_CODE_SUCCESS),
    {
        RESULT_CODE_SUCCESS == self.result_code
    }

    fn get_connection_id(&self) -> (r: Option<&String>)
        ensures
            r.is_none(),
    {
        None
    }

    fn get_request_id(&self) -> (r: Option<&String>)
        ensures
            r.is_some() == self.request_id.is_some(),
            r.is_some() ==> *r.unwrap() == self.request_id.unwrap(),
    {
        self.request_id.as_ref()
    }

    fn get_message(&self) -> (r: Option<&String>)
        ensures
            r.is_some() == self.message.is_some(),
            r.is_some() ==> *r.unwrap() == self.message.unwrap(),
    {
        self.message.as_ref()
    }

    fn get_error_code(&self) -> (r: i32)
        ensures
            r == self.error_code,
    {
        self.error_code
    }

    fn get_type_url(&self) -> (r: &'static str)
        ensures
            r@ == TYPE_CLIENT_DETECTION_CLIENT_RESPONSE@,
    {
        TYPE_CLIENT_DETECTION_CLIENT_RESPONSE
    }
}

impl ClientDetectionClientResponse {
    /// The successful acknowledgement of the probe sent under `request_id`.
    pub fn new(request_id: String) -> (r: Self)
        ensures
            r.request_id == Some(request_id),
            r.result_code == RESULT_CODE_SUCCESS,
            r.error_code == 0,
            r.message.is_none(),
    {
        ClientDetectionClientResponse {
            request_id: Some(request_id),
            result_code: RESULT_CODE_SUCCESS,
            error_code: 0,
            message: None,
        }
    }
}

/// The acknowledgement of a reset.
#[derive(Clone, Debug, PartialEq, Eq)]
pub struct ConnectResetClientResponse {
    pub request_id: Option<String>,
    pub result_code: i32,
    pub error_code: i32,
    pub message: Option<String>,
}

impl Response for ConnectResetClientResponse {
    fn is_success(&self) -> (r: bool)
        ensures
            r == (self.result_code == RESULT_CODE_SUCCESS),
    {
        RESULT_CODE_SUCCESS == self.result_code
    }

    fn get_connection_id(&self) -> (r: Option<&String>)
        ensures
            r.is_none(),
    {
        None
    }

    fn get_request_id(&self) -> (r: Option<&String>)
        ensures
            r.is_some() == self.request_id.is_some(),
            r.is_some() ==> *r.unwrap() == self.request_id.unwrap(),
    {
        self.request_id.as_ref()
    }

    fn get_message(&self) -> (r: Option<&String>)
        ensures
            r.is_some() == self.message.is_some(),
            r.is_some() ==> *r.unwrap() == self.message.unwrap(),
    {
        self.message.as_ref()
    }

    fn get_error_code(&self) -> (r: i32)
        ensures
            r == self.error_code,
    {
        self.error_code
    }

    fn get_type_url(&self) -> (r: &'static str)
        ensures
            r@ == TYPE_CONNECT_RESET_CLIENT_RESPONSE@,
    {
        TYPE_CONNECT_RESET_CLIENT_RESPONSE
    }
}

impl ConnectResetClientResponse {
    /// The successful acknowledgement of the reset sent under `request_id`.
    pub fn new(request_id: String) -> (r: Self)
        ensures
            r.request_id == Some(request_id),
            r.result_code == RESULT_CODE_SUCCESS,
            r.error_code == 0,
            r.message.is_none(),
    {
        ConnectResetClientResponse {
            request_id: Some(request_id),
            result_code: RESULT_CODE_SUCCESS,
            error_code: 0,
            message: None,
        }
    }
}

} // verus!

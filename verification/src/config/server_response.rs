//! Responses that the server sends about configuration items.

use crate::common::remote::response::{
    Response, RESULT_CODE_SUCCESS, TYPE_CONFIG_CHANGE_BATCH_LISTEN_RESPONSE,
    TYPE_CONFIG_QUERY_SERVER_RESPONSE,
};
use vstd::prelude::*;

verus! {

/// The answer to a config query.
#[derive(Clone, Debug, PartialEq, Eq)]
pub struct ConfigQueryServerResponse {
    pub request_id: Option<String>,
    pub result_code: i32,
    pub error_code: i32,
    pub message: Option<String>,
    /// The content of the item; absent where the server holds none.
    pub content: Option<String>,
    /// text, json, properties, html, xml, yaml ...
    pub content_type: Option<String>,
    /// The digest of the content.
    pub md5: Option<String>,
    /// Set where the content was encrypted; passed on as it is.
    pub encrypted_data_key: Option<String>,
    pub last_modified: i64,
}

impl Response for ConfigQueryServerResponse {
    fn is_success(&self) -> (r: bool)
        ensures
            r == (self.result_code == RESULT_CODE_SUCCESS),
    {
        RESULT_CODE_SUCCESS == self.result_code
    }

    fn get_connection_id(&self) -> (r: Option<&String>)
        ensures
            r.is_none(),
    {
        None
    }

    fn get_request_id(&self) -> (r: Option<&String>)
        ensures
            r.is_some() == self.request_id.is_some(),
            r.is_some() ==> *r.unwrap() == self.request_id.unwrap(),
    {
        self.request_id.as_ref()
    }

    fn get_message(&self) -> (r: Option<&String>)
        ensures
            r.is_some() == self.message.is_some(),
            r.is_some() ==> *r.unwrap() == self.message.unwrap(),
    {
        self.message.as_ref()
    }

    fn get_error_code(&self) -> (r: i32)
        ensures
            r == self.error_code,
    {
        self.error_code
    }

    fn get_type_url(&self) -> (r: &'static str)
        ensures
            r@ == TYPE_CONFIG_QUERY_SERVER_RESPONSE@,
    {
        TYPE_CONFIG_QUERY_SERVER_RESPONSE
    }
}

impl ConfigQueryServerResponse {
    /// A successful answer under `request_id` that carries `content` and
    /// nothing else.
    pub fn new(request_id: String, content: String) -> (r: Self)
        ensures
            r.request_id == Some(request_id),
            r.result_code == RESULT_CODE_SUCCESS,
            r.error_code == 0,
            r.message.is_none(),
            r.content == Some(content),
            r.content_type.is_none(),
            r.md5.is_none(),
            r.encrypted_data_key.is_none(),
            r.last_modified == 0,
    {
        ConfigQueryServerResponse {
            request_id: Some(request_id),
            result_code: RESULT_CODE_SUCCESS,
            error_code: 0,
            message: None,
            content: Some(content),
            content_type: None,
            md5: None,
            encrypted_data_key: None,
            last_modified: 0,
        }
    }

    /// A failed answer under `request_id`.
    pub fn failed(request_id: String, result_code: i32, error_code: i32, message: String) -> (r:
        Self)
        ensures
            r.request_id == Some(request_id),
            r.result_code == result_code,
            r.error_code == error_code,
            r.message == Some(message),
            r.content.is_none(),
            r.content_type.is_none(),
            r.md5.is_none(),
            r.encrypted_data_key.is_none(),
            r.last_modified == 0,
    {
        ConfigQueryServerResponse {
            request_id: Some(request_id),
            result_code,
            error_code,
            message: Some(message),
            content: None,
            content_type: None,
            md5: None,
            encrypted_data_key: None,
            last_modified: 0,
        }
    }

    pub fn get_content(&self) -> (r: Option<&String>)
        ensures
            r.is_some() == self.content.is_some(),
            r.is_some() ==> *r.unwrap() == self.content.unwrap(),
    {
        self.content.as_ref()
    }
}

/// The answer to a listen registration.
#[derive(Clone, Debug, PartialEq, Eq)]
pub struct ConfigChangeBatchListenServerResponse {
    pub request_id: Option<String>,
    pub result_code: i32,
    pub error_code: i32,
    pub message: Option<String>,
    /// The items whose content differs from the digest that was sent.
    pub changed_configs: Option<Vec<ConfigContext>>,
}

impl Response for ConfigChangeBatchListenServerResponse {
    fn is_success(&self) -> (r: bool)
        ensures
            r == (self.result_code == RESULT_CODE_SUCCESS),
    {
        RESULT_CODE_SUCCESS == self.result_code
    }

    fn get_connection_id(&self) -> (r: Option<&String>)
        ensures
            r.is_none(),
    {
        None
    }

    fn get_request_id(&self) -> (r: Option<&String>)
        ensures
            r.is_some() == self.request_id.is_some(),
            r.is_some() ==> *r.unwrap() == self.request_id.unwrap(),
    {
        self.request_id.as_ref()
    }

    fn get_message(&self) -> (r: Option<&String>)
        ensures
            r.is_some() == self.message.is_some(),
            r.is_some() ==> *r.unwrap() == self.message.unwrap(),
    {
        self.message.as_ref()
    }

    fn get_error_code(&self) -> (r: i32)
        ensures
            r == self.error_code,
    {
        self.error_code
    }

    fn get_type_url(&self) -> (r: &'static str)
        ensures
            r@ == TYPE_CONFIG_CHANGE_BATCH_LISTEN_RESPONSE@,
    {
        TYPE_CONFIG_CHANGE_BATCH_LISTEN_RESPONSE
    }
}

impl ConfigChangeBatchListenServerResponse {
    /// A successful answer under `request_id` that names no changed item.
    pub fn new(request_id: String) -> (r: Self)
        ensures
            r.request_id == Some(request_id),
            r.result_code == RESULT_CODE_SUCCESS,
            r.error_code == 0,
            r.message.is_none(),
            r.changed_configs.is_none(),
    {
        ConfigChangeBatchListenServerResponse {
            request_id: Some(request_id),
            result_code: RESULT_CODE_SUCCESS,
            error_code: 0,
            message: None,
            changed_configs: None,
        }
    }

    pub fn get_changed_configs(&self) -> (r: Option<&Vec<ConfigContext>>)
        ensures
            r.is_some() == self.changed_configs.is_some(),
            r.is_some() ==> *r.unwrap() == self.changed_configs.unwrap(),
    {
        self.changed_configs.as_ref()
    }
}

/// The Context of config changed.
#[derive(Clone, Debug, PartialEq, Eq)]
pub struct ConfigContext {
    /// DataId
    pub data_id: String,
    /// Group
    pub group: String,
    /// tenant
    pub tenant: String,
}

} // verus!

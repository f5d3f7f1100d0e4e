//! Requests that the client sends about configuration items.

use crate::common::remote::request::Request;
use std::collections::HashMap;
use vstd::prelude::*;

verus! {

/// Type identifier of a config query.
pub const TYPE_CONFIG_QUERY_CLIENT_REQUEST: &'static str = "ConfigQueryRequest";

/// Type identifier of a listen registration.
pub const TYPE_CONFIG_BATCH_LISTEN_CLIENT_REQUEST: &'static str = "ConfigBatchListenRequest";

/// Asks the server for the content of one item.
#[derive(Clone, Debug, PartialEq, Eq)]
pub struct ConfigQueryClientRequest {
    pub request_id: String,
    /// May be empty.
    pub headers: HashMap<String, String>,
    pub data_id: String,
    pub group: String,
    pub tenant: String,
}

impl Request for ConfigQueryClientRequest {
    fn get_request_id(&self) -> (r: &String)
        ensures
            *r == self.request_id,
    {
        &self.request_id
    }

    fn get_headers(&self) -> (r: &HashMap<String, String>)
        ensures
            *r == self.headers,
    {
        &self.headers
    }

    fn get_type_url(&self) -> (r: &'static str)
        ensures
            r@ == TYPE_CONFIG_QUERY_CLIENT_REQUEST@,
    {
        TYPE_CONFIG_QUERY_CLIENT_REQUEST
    }
}

impl ConfigQueryClientRequest {
    /// A query for the item `(data_id, group, tenant)` under the given
    /// request id, without headers.
    pub fn new(request_id: String, data_id: String, group: String, tenant: String) -> (r: Self)
        ensures
            r.request_id == request_id,
            r.headers@ == Map::<String, String>::empty(),
            r.data_id == data_id,
            r.group == group,
            r.tenant == tenant,
    {
        ConfigQueryClientRequest { request_id, headers: HashMap::new(), data_id, group, tenant }
    }
}

/// One item of a listen registration: the item and the digest of the
/// content that the client last saw, empty if it saw none.
#[derive(Clone, Debug, PartialEq, Eq)]
pub struct ConfigListenContext {
    pub data_id: String,
    pub group: String,
    pub tenant: String,
    pub md5: String,
}

impl ConfigListenContext {
    pub fn new(data_id: String, group: String, tenant: String, md5: String) -> (r: Self)
        ensures
            r.data_id == data_id,
            r.group == group,
            r.tenant == tenant,
            r.md5 == md5,
    {
        ConfigListenContext { data_id, group, tenant, md5 }
    }
}

/// Declares (or withdraws) interest in change notifications for a list of
/// items.
#[derive(Clone, Debug, PartialEq, Eq)]
pub struct ConfigBatchListenClientRequest {
    pub request_id: String,
    /// May be empty.
    pub headers: HashMap<String, String>,
    /// Whether the items are to be listened to (`true`) or no longer.
    pub listen: bool,
    pub config_listen_contexts: Vec<ConfigListenContext>,
}

impl Request for ConfigBatchListenClientRequest {
    fn get_request_id(&self) -> (r: &String)
        ensures
            *r == self.request_id,
    {
        &self.request_id
    }

    fn get_headers(&self) -> (r: &HashMap<String, String>)
        ensures
            *r == self.headers,
    {
        &self.headers
    }

    fn get_type_url(&self) -> (r: &'static str)
        ensures
            r@ == TYPE_CONFIG_BATCH_LISTEN_CLIENT_REQUEST@,
    {
        TYPE_CONFIG_BATCH_LISTEN_CLIENT_REQUEST
    }
}

impl ConfigBatchListenClientRequest {
    /// A registration without items under the given request id.
    pub fn new(request_id: String, listen: bool) -> (r: Self)
        ensures
            r.request_id == request_id,
            r.headers@ == Map::<String, String>::empty(),
            r.listen == listen,
            r.config_listen_contexts@ == Seq::<ConfigListenContext>::empty(),
    {
        ConfigBatchListenClientRequest {
            request_id,
            headers: HashMap::new(),
            listen,
            config_listen_contexts: Vec::new(),
        }
    }

    /// Adds one item at the end of the list.
    pub fn add_config_listen_context(self, context: ConfigListenContext) -> (r: Self)
        ensures
            r.request_id == self.request_id,
            r.headers == self.headers,
            r.listen == self.listen,
            r.config_listen_contexts@ == self.config_listen_contexts@.push(context),
    {
        let mut request = self;
        request.config_listen_contexts.push(context);
        request
    }

    /// Replaces the list of items.
    pub fn config_listen_contexts(self, contexts: Vec<ConfigListenContext>) -> (r: Self)
        ensures
            r.request_id == self.request_id,
            r.headers == self.headers,
            r.listen == self.listen,
            r.config_listen_contexts == contexts,
    {
        ConfigBatchListenClientRequest { config_listen_contexts: contexts, ..self }
    }
}

} // verus!

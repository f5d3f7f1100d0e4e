//! Requests that the client sends about the connection itself.

use crate::common::remote::request::{
    Request, CLIENT_VERSION, TYPE_CONNECTION_SETUP_CLIENT_REQUEST,
    TYPE_SERVER_CHECK_CLIENT_REQUEST,
};
use std::collections::HashMap;
use vstd::prelude::*;
use vstd::string::*;

verus! {

/// The legacy health check: nothing beyond the envelope.
#[derive(Clone, Debug, PartialEq, Eq)]
pub struct ServerCheckClientRequest {
    pub request_id: String,
    /// May be empty.
    pub headers: HashMap<String, String>,
}

impl Request for ServerCheckClientRequest {
    fn get_request_id(&self) -> (r: &String)
        ensures
            *r == self.request_id,
    {
        &self.request_id
    }

    fn get_headers(&self) -> (r: &HashMap<String, String>)
        ensures
            *r == self.headers,
    {
        &self.headers
    }

    fn get_type_url(&self) -> (r: &'static str)
        ensures
            r@ == TYPE_SERVER_CHECK_CLIENT_REQUEST@,
    {
        TYPE_SERVER_CHECK_CLIENT_REQUEST
    }
}

impl ServerCheckClientRequest {
    /// A health check under the given request id, without headers.
    pub fn new(request_id: String) -> (r: Self)
        ensures
            r.request_id == request_id,
            r.headers@ == Map::<String, String>::empty(),
    {
        ServerCheckClientRequest { request_id, headers: HashMap::new() }
    }
}

/// The first message on a new connection. No response is expected.
#[derive(Clone, Debug, PartialEq, Eq)]
pub struct ConnectionSetupClientRequest {
    pub request_id: String,
    /// May be empty.
    pub headers: HashMap<String, String>,
    pub client_version: String,
    pub tenant: String,
    /// May be empty.
    pub labels: HashMap<String, String>,
}

impl Request for ConnectionSetupClientRequest {
    fn get_request_id(&self) -> (r: &String)
        ensures
            *r == self.request_id,
    {
        &self.request_id
    }

    fn get_headers(&self) -> (r: &HashMap<String, String>)
        ensures
            *r == self.headers,
    {
        &self.headers
    }

    fn get_type_url(&self) -> (r: &'static str)
        ensures
            r@ == TYPE_CONNECTION_SETUP_CLIENT_REQUEST@,
    {
        TYPE_CONNECTION_SETUP_CLIENT_REQUEST
    }
}

impl ConnectionSetupClientRequest {
    /// A setup message for `tenant` under the given request id, without
    /// headers, announcing [`CLIENT_VERSION`].
    pub fn new(request_id: String, tenant: String, labels: HashMap<String, String>) -> (r: Self)
        ensures
            r.request_id == request_id,
            r.headers@ == Map::<String, String>::empty(),
            r.client_version@ == CLIENT_VERSION@,
            r.tenant == tenant,
            r.labels == labels,
    {
        ConnectionSetupClientRequest {
            request_id,
            headers: HashMap::new(),
            client_version: String::from_str(CLIENT_VERSION),
            tenant,
            labels,
        }
    }

    /// Sets the labels against.
    pub fn labels(self, labels: HashMap<String, String>) -> (r: Self)
        ensures
            r.request_id == self.request_id,
            r.headers == self.headers,
            r.client_version == self.client_version,
            r.tenant == self.tenant,
            r.labels == labels,
    {
        ConnectionSetupClientRequest { labels, ..self }
    }
}

} // verus!

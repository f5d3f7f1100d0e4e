//! Requests that the server sends about the connection itself.

use crate::common::remote::request::{
    Request, TYPE_CLIENT_DETECTION_SERVER_REQUEST, TYPE_CONNECT_RESET_SERVER_REQUEST,
};
use std::collections::HashMap;
use vstd::prelude::*;

verus! {

/// The keep-alive probe. The client answers it at once.
#[derive(Clone, Debug, PartialEq, Eq)]
pub struct ClientDetectionServerRequest {
    pub request_id: String,
    /// May be empty.
    pub headers: HashMap<String, String>,
}

impl Request for ClientDetectionServerRequest {
    fn get_request_id(&self) -> (r: &String)
        ensures
            *r == self.request_id,
    {
        &self.request_id
    }

    fn get_headers(&self) -> (r: &HashMap<String, String>)
        ensures
            *r == self.headers,
    {
        &self.headers
    }

    fn get_type_url(&self) -> (r: &'static str)
        ensures
            r@ == TYPE_CLIENT_DETECTION_SERVER_REQUEST@,
    {
        TYPE_CLIENT_DETECTION_SERVER_REQUEST
    }
}

impl ClientDetectionServerRequest {
    /// A probe under the given request id, without headers.
    pub fn new(request_id: String) -> (r: Self)
        ensures
            r.request_id == request_id,
            r.headers@ == Map::<String, String>::empty(),
    {
        ClientDetectionServerRequest { request_id, headers: HashMap::new() }
    }

    /// Sets the headers of the envelope.
    pub fn headers(self, headers: HashMap<String, String>) -> (r: Self)
        ensures
            r.request_id == self.request_id,
            r.headers == headers,
    {
        ClientDetectionServerRequest { headers, ..self }
    }
}

/// The server's demand to give the connection up and to connect anew.
#[derive(Clone, Debug, PartialEq, Eq)]
pub struct ConnectResetServerRequest {
    pub request_id: String,
    /// May be empty.
    pub headers: HashMap<String, String>,
}

impl Request for ConnectResetServerRequest {
    fn get_request_id(&self) -> (r: &String)
        ensures
            *r == self.request_id,
    {
        &self.request_id
    }

    fn get_headers(&self) -> (r: &HashMap<String, String>)
        ensures
            *r == self.headers,
    {
        &self.headers
    }

    fn get_type_url(&self) -> (r: &'static str)
        ensures
            r@ == TYPE_CONNECT_RESET_SERVER_REQUEST@,
    {
        TYPE_CONNECT_RESET_SERVER_REQUEST
    }
}

impl ConnectResetServerRequest {
    /// A reset under the given request id, without headers.
    pub fn new(request_id: String) -> (r: Self)
        ensures
            r.request_id == request_id,
            r.headers@ == Map::<String, String>::empty(),
    {
        ConnectResetServerRequest { request_id, headers: HashMap::new() }
    }

    /// Sets the headers of the envelope.
    pub fn headers(self, headers: HashMap<String, String>) -> (r: Self)
        ensures
            r.request_id == self.request_id,
            r.headers == headers,
    {
        ConnectResetServerRequest { headers, ..self }
    }
}

} // verus!

//! Requests that the server sends about configuration items.

use crate::common::remote::request::Request;
use std::collections::HashMap;
use vstd::prelude::*;

verus! {

/// Type identifier of a change notification.
pub const TYPE_CONFIG_CHANGE_NOTIFY_SERVER_REQUEST: &'static str = "ConfigChangeNotifyRequest";

/// Tells the client that an item has changed on the server.
#[derive(Clone, Debug, PartialEq, Eq)]
pub struct ConfigChangeNotifyServerRequest {
    pub request_id: String,
    /// May be empty.
    pub headers: HashMap<String, String>,
    pub data_id: String,
    pub group: String,
    /// Absent where the item belongs to the default tenant.
    pub tenant: Option<String>,
}

impl Request for ConfigChangeNotifyServerRequest {
    fn get_request_id(&self) -> (r: &String)
        ensures
            *r == self.request_id,
    {
        &self.request_id
    }

    fn get_headers(&self) -> (r: &HashMap<String, String>)
        ensures
            *r == self.headers,
    {
        &self.headers
    }

    fn get_type_url(&self) -> (r: &'static str)
        ensures
            r@ == TYPE_CONFIG_CHANGE_NOTIFY_SERVER_REQUEST@,
    {
        TYPE_CONFIG_CHANGE_NOTIFY_SERVER_REQUEST
    }
}

impl ConfigChangeNotifyServerRequest {
    /// A notification for the item `(data_id, group, tenant)` under the
    /// given request id, without headers.
    pub fn new(request_id: String, data_id: String, group: String, tenant: Option<String>) -> (r:
        Self)
        ensures
            r.request_id == request_id,
            r.headers@ == Map::<String, String>::empty(),
            r.data_id == data_id,
            r.group == group,
            r.tenant == tenant,
    {
        ConfigChangeNotifyServerRequest {
            request_id,
            headers: HashMap::new(),
            data_id,
            group,
            tenant,
        }
    }

    /// Sets the headers of the envelope.
    pub fn headers(self, headers: HashMap<String, String>) -> (r: Self)
        ensures
            r.request_id == self.request_id,
            r.headers == headers,
            r.data_id == self.data_id,
            r.group == self.group,
            r.tenant == self.tenant,
    {
        ConfigChangeNotifyServerRequest { headers, ..self }
    }

    /// The tenant of the item as the cache knows it: the empty string
    /// stands for the default tenant.
    pub open spec fn spec_tenant(&self) -> Seq<char> {
        match self.tenant {
            Some(t) => t@,
            None => Seq::<char>::empty(),
        }
    }

    /// The tenant of the item, empty for the default tenant.
    pub fn tenant_or_default(&self) -> (r: String)
        ensures
            r@ == self.spec_tenant(),
    {
        match &self.tenant {
            Some(t) => t.clone(),
            None => String::new(),
        }
    }
}

} // verus!

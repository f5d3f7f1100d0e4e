//! Options of the client.

use std::collections::HashMap;
use vstd::prelude::*;
use vstd::string::*;

verus! {

/// The server address that a client uses unless told otherwise.
pub const DEFAULT_SERVER_ADDR: &'static str = "0.0.0.0:9848";

/// The application name that a client uses unless told otherwise.
pub const DEFAULT_APP_NAME: &'static str = "unknown";

/// Where the server is and as whom the client speaks to it.
#[derive(Debug, PartialEq, Eq)]
pub struct ClientConfig {
    /// `host:port` of the server.
    pub server_addr: String,
    /// Namespace/Tenant; empty for the default tenant.
    pub namespace: String,
    /// The name under which the application registers.
    pub app_name: String,
    /// Labels sent when a connection is set up; may be empty.
    pub labels: HashMap<String, String>,
}

impl ClientConfig {
    /// The options of a client of the default tenant.
    pub fn new() -> (r: Self)
        ensures
            r.server_addr@ == DEFAULT_SERVER_ADDR@,
            r.namespace@ == Seq::<char>::empty(),
            r.app_name@ == DEFAULT_APP_NAME@,
            r.labels@ == Map::<String, String>::empty(),
    {
        ClientConfig {
            server_addr: String::from_str(DEFAULT_SERVER_ADDR),
            namespace: String::new(),
            app_name: String::from_str(DEFAULT_APP_NAME),
            labels: HashMap::new(),
        }
    }

    /// Sets the server address.
    pub fn server_addr(self, server_addr: String) -> (r: Self)
        ensures
            r.server_addr == server_addr,
            r.namespace == self.namespace,
            r.app_name == self.app_name,
            r.labels == self.labels,
    {
        ClientConfig { server_addr, ..self }
    }

    /// Sets the namespace.
    pub fn namespace(self, namespace: String) -> (r: Self)
        ensures
            r.server_addr == self.server_addr,
            r.namespace == namespace,
            r.app_name == self.app_name,
            r.labels == self.labels,
    {
        ClientConfig { namespace, ..self }
    }

    /// Sets the application name.
    pub fn app_name(self, app_name: String) -> (r: Self)
        ensures
            r.server_addr == self.server_addr,
            r.namespace == self.namespace,
            r.app_name == app_name,
            r.labels == self.labels,
    {
        ClientConfig { app_name, ..self }
    }

    /// Sets the labels.
    pub fn labels(self, labels: HashMap<String, String>) -> (r: Self)
        ensures
            r.server_addr == self.server_addr,
            r.namespace == self.namespace,
            r.app_name == self.app_name,
            r.labels == labels,
    {
        ClientConfig { labels, ..self }
    }
}

impl Clone for ClientConfig {
    fn clone(&self) -> (r: Self)
        ensures
            r.server_addr == self.server_addr,
            r.namespace == self.namespace,
            r.app_name == self.app_name,
            r.labels@ == self.labels@,
    {
        ClientConfig {
            server_addr: self.server_addr.clone(),
            namespace: self.namespace.clone(),
            app_name: self.app_name.clone(),
            labels: self.labels.clone(),
        }
    }
}

} // verus!

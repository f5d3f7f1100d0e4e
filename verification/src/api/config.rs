//! Values handed to listeners, and the builder of a config service.

use crate::api::client_config::{ClientConfig, DEFAULT_APP_NAME, DEFAULT_SERVER_ADDR};
use crate::api::error::Error;
use crate::common::remote::conn::ConnectionState;
use crate::common::remote::pending::PendingRequest;
use crate::config::dispatcher::BusinessRequest;
use crate::config::worker::CacheDataView;
use crate::config::NacosConfigService;
use vstd::prelude::*;

verus! {

/// What an application asks of a config service.
///
/// The listener is whatever the service accepts as a callback for
/// changes: any callable value will do.
pub trait ConfigService {
    /// The callback that is told about changes.
    type Listener;

    /// Get config, return the content.
    fn get_config(&mut self, data_id: String, group: String, timeout_ms: u64) -> Result<
        String,
        Error,
    >;

    /// Listen the config change.
    fn listen(&mut self, data_id: String, group: String, listener: Self::Listener) -> Result<
        (),
        Error,
    >;
}

/// A snapshot of one configuration item, as a listener receives it.
#[derive(Debug, PartialEq, Eq)]
pub struct ConfigResponse {
    /// Namespace/Tenant
    namespace: String,
    /// DataId
    data_id: String,
    /// Group
    group: String,
    /// Content
    content: String,
    /// Content type: text, json, properties, html, xml, yaml ...
    content_type: String,
}

/// The model of a [`ConfigResponse`].
pub struct ConfigResponseView {
    pub namespace: Seq<char>,
    pub data_id: Seq<char>,
    pub group: Seq<char>,
    pub content: Seq<char>,
    pub content_type: Seq<char>,
}

impl View for ConfigResponse {
    type V = ConfigResponseView;

    closed spec fn view(&self) -> ConfigResponseView {
        ConfigResponseView {
            namespace: self.namespace@,
            data_id: self.data_id@,
            group: self.group@,
            content: self.content@,
            content_type: self.content_type@,
        }
    }
}

impl ConfigResponse {
    pub fn new(
        data_id: String,
        group: String,
        namespace: String,
        content: String,
        content_type: String,
    ) -> (r: Self)
        ensures
            r@ == (ConfigResponseView {
                namespace: namespace@,
                data_id: data_id@,
                group: group@,
                content: content@,
                content_type: content_type@,
            }),
    {
        ConfigResponse { namespace, data_id, group, content, content_type }
    }

    pub fn get_namespace(&self) -> (r: &String)
        ensures
            r@ == self@.namespace,
    {
        &self.namespace
    }

    pub fn get_data_id(&self) -> (r: &String)
        ensures
            r@ == self@.data_id,
    {
        &self.data_id
    }

    pub fn get_group(&self) -> (r: &String)
        ensures
            r@ == self@.group,
    {
        &self.group
    }

    pub fn get_content(&self) -> (r: &String)
        ensures
            r@ == self@.content,
    {
        &self.content
    }

    pub fn get_content_type(&self) -> (r: &String)
        ensures
            r@ == self@.content_type,
    {
        &self.content_type
    }
}

impl Clone for ConfigResponse {
    fn clone(&self) -> (r: Self)
        ensures
            r@ == self@,
    {
        ConfigResponse {
            namespace: self.namespace.clone(),
            data_id: self.data_id.clone(),
            group: self.group.clone(),
            content: self.content.clone(),
            content_type: self.content_type.clone(),
        }
    }
}

/// Builds a config service from the options of the client.
#[derive(Debug)]
pub struct ConfigServiceBuilder {
    client_config: ClientConfig,
}

impl ConfigServiceBuilder {
    /// The options that the service will be built with.
    pub closed spec fn config(&self) -> ClientConfig {
        self.client_config
    }

    /// A builder with the given options.
    pub fn new(client_config: ClientConfig) -> (r: Self)
        ensures
            r.config() == client_config,
    {
        ConfigServiceBuilder { client_config }
    }

    /// Builds the service: not connected yet, with an empty cache.
    pub fn build(self) -> (r: NacosConfigService)
        ensures
            r.wf(),
            r.config() == self.config(),
            r.connection().state() == ConnectionState::Disconnected,
            !r.connection().is_closed(),
            r.connection().pending() == Seq::<PendingRequest>::empty(),
            r.entries() == Seq::<CacheDataView>::empty(),
            r.backlog() == Seq::<BusinessRequest>::empty(),
    {
        NacosConfigService::new(self.client_config)
    }
}

impl Default for ConfigServiceBuilder {
    /// A builder with the options of a client of the default tenant.
    fn default() -> (r: Self)
        ensures
            r.config().server_addr@ == DEFAULT_SERVER_ADDR@,
            r.config().namespace@ == Seq::<char>::empty(),
            r.config().app_name@ == DEFAULT_APP_NAME@,
            r.config().labels@ == Map::<String, String>::empty(),
    {
        ConfigServiceBuilder { client_config: ClientConfig::new() }
    }
}

} // verus!

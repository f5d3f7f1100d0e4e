use nacos_config::api::client_config::ClientConfig;
use nacos_config::api::config::{ConfigResponse, ConfigServiceBuilder};
use nacos_config::api::error::Error;
use nacos_config::common::remote::conn::ConnectionState;
use nacos_config::common::remote::request::client_request::{
    ConnectionSetupClientRequest, ServerCheckClientRequest,
};
use nacos_config::common::remote::request::server_request::{
    ClientDetectionServerRequest, ConnectResetServerRequest,
};
use nacos_config::common::remote::request::Request;
use nacos_config::common::remote::response::client_response::{
    ClientDetectionClientResponse, ConnectResetClientResponse,
};
use nacos_config::common::remote::response::Response;
use nacos_config::config::client_request::{
    ConfigBatchListenClientRequest, ConfigListenContext, ConfigQueryClientRequest,
};
use nacos_config::config::client_response::ConfigChangeNotifyClientResponse;
use nacos_config::config::server_request::ConfigChangeNotifyServerRequest;
use nacos_config::config::server_response::{
    ConfigChangeBatchListenServerResponse, ConfigContext, ConfigQueryServerResponse,
};
use std::collections::HashMap;

fn text(s: &str) -> String {
    s.to_string()
}

fn one_label() -> HashMap<String, String> {
    let mut labels = HashMap::new();
    labels.insert(text("source"), text("sdk"));
    labels
}

#[test]
fn config_response_getters_return_the_fields() {
    let response = ConfigResponse::new(text("d"), text("g"), text("ns"), text("c"), text("json"));
    assert_eq!(response.get_data_id(), "d");
    assert_eq!(response.get_group(), "g");
    assert_eq!(response.get_namespace(), "ns");
    assert_eq!(response.get_content(), "c");
    assert_eq!(response.get_content_type(), "json");
    assert_eq!(response.clone(), response);
}

#[test]
fn client_config_defaults_and_setters() {
    let config = ClientConfig::new();
    assert_eq!(config.server_addr, "0.0.0.0:9848");
    assert_eq!(config.namespace, "");
    assert_eq!(config.app_name, "unknown");
    assert!(config.labels.is_empty());
    let config = config
        .server_addr(text("10.0.0.1:9848"))
        .namespace(text("ns"))
        .app_name(text("test-app-name"))
        .labels(one_label());
    assert_eq!(config.server_addr, "10.0.0.1:9848");
    assert_eq!(config.namespace, "ns");
    assert_eq!(config.app_name, "test-app-name");
    assert_eq!(config.labels, one_label());
    assert_eq!(config.clone(), config);
}

#[test]
fn builder_builds_a_disconnected_service_with_empty_cache() {
    let service = ConfigServiceBuilder::new(ClientConfig::new().namespace(text("ns"))).build();
    assert_eq!(service.get_state(), ConnectionState::Disconnected);
    assert_eq!(service.cached(), 0);
    assert_eq!(service.queued(), 0);
    assert_eq!(service.in_flight(), 0);
    let by_default = ConfigServiceBuilder::default().build();
    assert_eq!(by_default.get_state(), ConnectionState::Disconnected);
    assert_eq!(by_default.cached(), 0);
}

#[test]
fn server_check_request_has_id_and_no_headers() {
    let request = ServerCheckClientRequest::new(text("id-1"));
    assert_eq!(request.get_request_id(), "id-1");
    assert!(request.get_headers().is_empty());
    assert_eq!(request.get_type_url(), "ServerCheckRequest");
}

#[test]
fn connection_setup_request_carries_version_tenant_and_labels() {
    let request = ConnectionSetupClientRequest::new(text("id-2"), text("tenant"), HashMap::new());
    assert_eq!(request.get_request_id(), "id-2");
    assert!(request.get_headers().is_empty());
    assert_eq!(request.get_type_url(), "ConnectionSetupRequest");
    assert_eq!(request.client_version, "2.1.0");
    assert_eq!(request.tenant, "tenant");
    assert!(request.labels.is_empty());
    let request = request.labels(one_label());
    assert_eq!(request.labels, one_label());
    assert_eq!(request.request_id, "id-2");
    assert_eq!(request.tenant, "tenant");
    assert_eq!(request.client_version, "2.1.0");
}

#[test]
fn server_requests_carry_id_and_headers() {
    let probe = ClientDetectionServerRequest::new(text("p")).headers(one_label());
    assert_eq!(probe.get_request_id(), "p");
    assert_eq!(probe.get_headers(), &one_label());
    assert_eq!(probe.get_type_url(), "ClientDetectionRequest");
    let reset = ConnectResetServerRequest::new(text("r")).headers(one_label());
    assert_eq!(reset.get_request_id(), "r");
    assert_eq!(reset.get_headers(), &one_label());
    assert_eq!(reset.get_type_url(), "ConnectResetRequest");
    let notify = ConfigChangeNotifyServerRequest::new(text("n"), text("d"), text("g"), Some(text("t")))
        .headers(one_label());
    assert_eq!(notify.get_request_id(), "n");
    assert_eq!(notify.get_headers(), &one_label());
    assert_eq!(notify.get_type_url(), "ConfigChangeNotifyRequest");
    assert_eq!(notify.data_id, "d");
    assert_eq!(notify.group, "g");
    assert_eq!(notify.tenant_or_default(), "t");
}

#[test]
fn absent_tenant_of_a_notification_is_the_default_tenant() {
    let notify = ConfigChangeNotifyServerRequest::new(text("n"), text("d"), text("g"), None);
    assert_eq!(notify.tenant_or_default(), "");
}

#[test]
fn acknowledgements_are_successful_and_echo_the_id() {
    let detection = ClientDetectionClientResponse::new(text("a"));
    assert!(detection.is_success());
    assert_eq!(detection.get_request_id(), Some(&text("a")));
    assert_eq!(detection.get_connection_id(), None);
    assert_eq!(detection.get_message(), None);
    assert_eq!(detection.get_error_code(), 0);
    assert_eq!(detection.get_type_url(), "ClientDetectionResponse");
    let reset = ConnectResetClientResponse::new(text("b"));
    assert!(reset.is_success());
    assert_eq!(reset.get_request_id(), Some(&text("b")));
    assert_eq!(reset.get_connection_id(), None);
    assert_eq!(reset.get_message(), None);
    assert_eq!(reset.get_error_code(), 0);
    assert_eq!(reset.get_type_url(), "ConnectResetResponse");
    let notify = ConfigChangeNotifyClientResponse::new(text("c"));
    assert!(notify.is_success());
    assert_eq!(notify.get_request_id(), Some(&text("c")));
    assert_eq!(notify.get_connection_id(), None);
    assert_eq!(notify.get_message(), None);
    assert_eq!(notify.get_error_code(), 0);
    assert_eq!(notify.get_type_url(), "ConfigChangeNotifyResponse");
}

#[test]
fn response_with_other_result_code_is_no_success() {
    let mut response = ClientDetectionClientResponse::new(text("a"));
    response.result_code = 500;
    response.error_code = 7;
    response.message = Some(text("no"));
    assert!(!response.is_success());
    assert_eq!(response.get_error_code(), 7);
    assert_eq!(response.get_message(), Some(&text("no")));
}

#[test]
fn config_query_request_names_the_item() {
    let request = ConfigQueryClientRequest::new(text("q"), text("d"), text("g"), text("t"));
    assert_eq!(request.get_request_id(), "q");
    assert!(request.get_headers().is_empty());
    assert_eq!(request.get_type_url(), "ConfigQueryRequest");
    assert_eq!(request.data_id, "d");
    assert_eq!(request.group, "g");
    assert_eq!(request.tenant, "t");
}

#[test]
fn batch_listen_request_collects_contexts_in_order() {
    let request = ConfigBatchListenClientRequest::new(text("l"), true);
    assert_eq!(request.get_request_id(), "l");
    assert!(request.get_headers().is_empty());
    assert_eq!(request.get_type_url(), "ConfigBatchListenRequest");
    assert!(request.listen);
    assert!(request.config_listen_contexts.is_empty());
    let request = request
        .add_config_listen_context(ConfigListenContext::new(text("a"), text("g"), text(""), text("")))
        .add_config_listen_context(ConfigListenContext::new(text("b"), text("g"), text("t"), text("m")));
    assert_eq!(
        request.config_listen_contexts,
        vec![
            ConfigListenContext { data_id: text("a"), group: text("g"), tenant: text(""), md5: text("") },
            ConfigListenContext { data_id: text("b"), group: text("g"), tenant: text("t"), md5: text("m") },
        ]
    );
    let replaced = request.config_listen_contexts(vec![]);
    assert!(replaced.config_listen_contexts.is_empty());
    assert!(replaced.listen);
    assert_eq!(replaced.request_id, "l");
    assert!(!ConfigBatchListenClientRequest::new(text("x"), false).listen);
}

#[test]
fn config_query_response_constructors() {
    let ok = ConfigQueryServerResponse::new(text("q"), text("abc"));
    assert!(ok.is_success());
    assert_eq!(ok.get_request_id(), Some(&text("q")));
    assert_eq!(ok.get_content(), Some(&text("abc")));
    assert_eq!(ok.get_connection_id(), None);
    assert_eq!(ok.get_message(), None);
    assert_eq!(ok.get_error_code(), 0);
    assert_eq!(ok.get_type_url(), "ConfigQueryResponse");
    let bad = ConfigQueryServerResponse::failed(text("q"), 500, 300, text("config data not exist"));
    assert!(!bad.is_success());
    assert_eq!(bad.get_error_code(), 300);
    assert_eq!(bad.get_message(), Some(&text("config data not exist")));
    assert_eq!(bad.get_content(), None);
}

#[test]
fn batch_listen_response_starts_successful_and_without_changes() {
    let mut response = ConfigChangeBatchListenServerResponse::new(text("l"));
    assert!(response.is_success());
    assert_eq!(response.get_request_id(), Some(&text("l")));
    assert_eq!(response.get_connection_id(), None);
    assert_eq!(response.get_message(), None);
    assert_eq!(response.get_error_code(), 0);
    assert_eq!(response.get_type_url(), "ConfigChangeBatchListenResponse");
    assert_eq!(response.get_changed_configs(), None);
    let changed = vec![ConfigContext { data_id: text("d"), group: text("g"), tenant: text("") }];
    response.changed_configs = Some(changed.clone());
    assert_eq!(response.get_changed_configs(), Some(&changed));
}

#[test]
fn error_clone_keeps_variant_and_texts() {
    let errors = vec![
        Error::TransportError(text("t")),
        Error::Timeout,
        Error::ProtocolError(text("p")),
        Error::ServerError { code: 403, message: text("denied") },
        Error::NotFound,
        Error::Cancelled,
    ];
    for error in &errors {
        assert_eq!(&error.clone(), error);
    }
}

use nacos_config::api::client_config::ClientConfig;
use nacos_config::api::config::ConfigResponse;
use nacos_config::api::error::Error;
use nacos_config::common::remote::conn::ConnectionState;
use nacos_config::common::remote::request::server_request::{
    ClientDetectionServerRequest, ConnectResetServerRequest,
};
use nacos_config::common::remote::response::client_response::{
    ClientDetectionClientResponse, ConnectResetClientResponse,
};
use nacos_config::config::client_request::ConfigListenContext;
use nacos_config::config::client_response::ConfigChangeNotifyClientResponse;
use nacos_config::config::dispatcher::{BusinessRequest, ServerRequest, Turn};
use nacos_config::config::server_request::ConfigChangeNotifyServerRequest;
use nacos_config::config::server_response::ConfigQueryServerResponse;
use nacos_config::config::worker::Notification;
use nacos_config::config::{BusinessAction, NacosConfigService, PushAction};

fn text(s: &str) -> String {
    s.to_string()
}

fn connected_service(namespace: &str) -> NacosConfigService {
    let mut service = NacosConfigService::new(ClientConfig::new().namespace(text(namespace)));
    assert!(service.start(text("setup-1")).is_some());
    assert!(service.connected(text("listen-0")).is_none());
    assert_eq!(service.get_state(), ConnectionState::Connected);
    service
}

fn notify(id: &str, data_id: &str, group: &str, tenant: Option<&str>) -> ServerRequest {
    ServerRequest::ConfigChangeNotify(ConfigChangeNotifyServerRequest::new(
        text(id),
        text(data_id),
        text(group),
        tenant.map(text),
    ))
}

#[test]
fn get_config_result_of_success_is_the_content() {
    let response = ConfigQueryServerResponse::new(text("q1"), text("abc"));
    assert_eq!(NacosConfigService::get_config_result(response), Ok(text("abc")));
}

#[test]
fn get_config_result_of_failure_carries_error_code_and_message() {
    let response = ConfigQueryServerResponse::failed(text("q1"), 500, 403, text("access denied"));
    assert_eq!(
        NacosConfigService::get_config_result(response),
        Err(Error::ServerError { code: 403, message: text("access denied") })
    );
}

#[test]
fn get_config_result_of_failure_ignores_content_and_missing_message() {
    let mut response = ConfigQueryServerResponse::new(text("q1"), text("abc"));
    response.result_code = 201;
    response.error_code = -1;
    assert_eq!(
        NacosConfigService::get_config_result(response),
        Err(Error::ServerError { code: -1, message: text("") })
    );
}

#[test]
fn get_config_result_of_success_without_content_is_not_found() {
    let mut response = ConfigQueryServerResponse::new(text("q1"), text("abc"));
    response.content = None;
    assert_eq!(NacosConfigService::get_config_result(response), Err(Error::NotFound));
}

#[test]
fn get_config_queries_the_own_tenant_and_waits_for_the_answer() {
    let mut service = connected_service("ns-1");
    let query = service
        .get_config(text("hongwen.properties"), text("LOVE"), text("q-1"), 9, 1000, 3000)
        .unwrap();
    assert_eq!(query.request_id, "q-1");
    assert_eq!(query.data_id, "hongwen.properties");
    assert_eq!(query.group, "LOVE");
    assert_eq!(query.tenant, "ns-1");
    assert!(query.headers.is_empty());
    assert_eq!(service.in_flight(), 1);
    assert_eq!(service.cached(), 0);
    let waiting = service.on_response(&text("q-1")).unwrap();
    assert_eq!(waiting.handle, 9);
    assert_eq!(waiting.deadline_ms, 4000);
    assert_eq!(service.in_flight(), 0);
    assert!(service.on_response(&text("q-1")).is_none());
}

#[test]
fn get_config_never_reads_the_cache() {
    let mut service = connected_service("");
    service.listen(text("d"), text("g"), 1, text("l-1")).unwrap();
    service.on_config_refreshed(text("d"), text("g"), text(""), ConfigQueryServerResponse::new(text("x"), text("cached")));
    let query = service.get_config(text("d"), text("g"), text("q-1"), 1, 0, 10);
    assert!(query.is_ok());
    assert_eq!(service.in_flight(), 1);
}

#[test]
fn get_config_fails_fast_while_not_connected() {
    let mut service = NacosConfigService::new(ClientConfig::new());
    assert_eq!(
        service.get_config(text("d"), text("g"), text("q"), 1, 0, 10),
        Err(Error::TransportError(text("connection is not established")))
    );
    assert_eq!(service.in_flight(), 0);
}

#[test]
fn get_config_times_out_when_swept_after_the_deadline() {
    let mut service = connected_service("");
    service.get_config(text("d"), text("g"), text("q-1"), 5, 1000, 3000).unwrap();
    assert!(service.sweep(3999).is_empty());
    let failures = service.sweep(4000);
    assert_eq!(failures.len(), 1);
    assert_eq!(failures[0].request.handle, 5);
    assert_eq!(failures[0].error, Error::Timeout);
    assert_eq!(service.in_flight(), 0);
}

#[test]
fn query_config_refuses_a_request_id_in_flight() {
    let mut service = connected_service("");
    service.query_config(text("d"), text("g"), text("t"), text("q-1"), 1, 0, 10).unwrap();
    assert_eq!(
        service.query_config(text("d"), text("g"), text("t"), text("q-1"), 2, 0, 10),
        Err(Error::ProtocolError(text("request id is already in flight")))
    );
    assert_eq!(service.in_flight(), 1);
}

#[test]
fn listen_registers_and_returns_the_registration() {
    let mut service = connected_service("");
    let registration = service.listen(text("app.properties"), text("DEFAULT_GROUP"), 1, text("l-1")).unwrap();
    assert_eq!(registration.request_id, "l-1");
    assert!(registration.listen);
    assert!(registration.headers.is_empty());
    assert_eq!(
        registration.config_listen_contexts,
        vec![ConfigListenContext::new(text("app.properties"), text("DEFAULT_GROUP"), text(""), text(""))]
    );
    assert_eq!(service.cached(), 1);
    assert_eq!(service.in_flight(), 0);
}

#[test]
fn listen_twice_keeps_one_entry_with_both_listeners() {
    let mut service = connected_service("ns");
    service.listen(text("app.properties"), text("DEFAULT_GROUP"), 1, text("l-1")).unwrap();
    service.listen(text("app.properties"), text("DEFAULT_GROUP"), 2, text("l-2")).unwrap();
    assert_eq!(service.cached(), 1);
    let entry = service.cache().get("app.properties", "DEFAULT_GROUP", "ns").unwrap();
    assert_eq!(entry.get_listeners(), &vec![1, 2]);
}

#[test]
fn listen_carries_the_digest_last_seen() {
    let mut service = connected_service("");
    service.listen(text("d"), text("g"), 1, text("l-1")).unwrap();
    let mut answer = ConfigQueryServerResponse::new(text("q"), text("v1"));
    answer.md5 = Some(text("digest-1"));
    service.on_config_refreshed(text("d"), text("g"), text(""), answer);
    let registration = service.listen(text("d"), text("g"), 2, text("l-2")).unwrap();
    assert_eq!(registration.config_listen_contexts.len(), 1);
    assert_eq!(registration.config_listen_contexts[0].md5, "digest-1");
}

#[test]
fn listen_fails_while_not_connected_and_leaves_the_cache() {
    let mut service = NacosConfigService::new(ClientConfig::new());
    assert_eq!(
        service.listen(text("d"), text("g"), 1, text("l")),
        Err(Error::TransportError(text("connection is not established")))
    );
    assert_eq!(service.cached(), 0);
    service.shutdown();
    assert_eq!(service.listen(text("d"), text("g"), 1, text("l")), Err(Error::Cancelled));
    assert_eq!(service.cached(), 0);
}

#[test]
fn probe_gets_one_ack_with_the_same_request_id() {
    let mut service = connected_service("");
    service.listen(text("d"), text("g"), 1, text("l-1")).unwrap();
    service.get_config(text("d"), text("g"), text("q-1"), 1, 0, 10).unwrap();
    for i in 0..50 {
        service.on_server_push(notify(&format!("n{}", i), "d", "g", None));
    }
    let action = service.on_server_push(ServerRequest::ClientDetection(ClientDetectionServerRequest::new(text("probe-9"))));
    assert_eq!(action, PushAction::ReplyDetection(ClientDetectionClientResponse::new(text("probe-9"))));
    assert_eq!(service.queued(), 50);
    assert_eq!(service.in_flight(), 1);
    assert_eq!(service.cached(), 1);
    assert_eq!(service.get_state(), ConnectionState::Connected);
}

#[test]
fn change_notification_is_acknowledged_and_listener_told_once() {
    let mut service = connected_service("");
    service.listen(text("app.properties"), text("DEFAULT_GROUP"), 1, text("l-1")).unwrap();

    let pushed = service.on_server_push(notify("notify-1", "app.properties", "DEFAULT_GROUP", Some("")));
    assert_eq!(pushed, PushAction::Queued);
    assert_eq!(service.next_turn(false), Turn::Business);

    let action = service.on_business();
    assert_eq!(
        action,
        BusinessAction::Refresh {
            ack: ConfigChangeNotifyClientResponse::new(text("notify-1")),
            data_id: text("app.properties"),
            group: text("DEFAULT_GROUP"),
            tenant: text(""),
        }
    );
    assert!(service.cache().get("app.properties", "DEFAULT_GROUP", "").unwrap().is_stale());
    assert_eq!(service.on_business(), BusinessAction::Idle);

    let mut answer = ConfigQueryServerResponse::new(text("q-1"), text("key=new"));
    answer.content_type = Some(text("properties"));
    answer.md5 = Some(text("0cc175b9"));
    answer.last_modified = 1234;
    let told = service.on_config_refreshed(text("app.properties"), text("DEFAULT_GROUP"), text(""), answer);
    assert_eq!(
        told,
        vec![Notification {
            listener: 1,
            response: ConfigResponse::new(
                text("app.properties"),
                text("DEFAULT_GROUP"),
                text(""),
                text("key=new"),
                text("properties"),
            ),
        }]
    );
    let mut calls: Vec<String> = Vec::new();
    for notification in &told {
        if notification.listener == 1 {
            calls.push(notification.response.get_content().clone());
        }
    }
    assert_eq!(calls, vec![text("key=new")]);
    let entry = service.cache().get("app.properties", "DEFAULT_GROUP", "").unwrap();
    assert_eq!(entry.get_content(), "key=new");
    assert_eq!(entry.get_md5(), "0cc175b9");
    assert_eq!(entry.get_last_modified(), 1234);
    assert!(!entry.is_stale());
}

#[test]
fn change_of_unknown_item_is_only_acknowledged() {
    let mut service = connected_service("");
    service.listen(text("d"), text("g"), 1, text("l-1")).unwrap();
    service.on_server_push(notify("n-1", "never", "registered", None));
    assert_eq!(
        service.on_business(),
        BusinessAction::Acknowledge(ConfigChangeNotifyClientResponse::new(text("n-1")))
    );
    assert_eq!(service.cached(), 1);
    assert!(!service.cache().get("d", "g", "").unwrap().is_stale());
    let told = service.on_config_refreshed(
        text("never"),
        text("registered"),
        text(""),
        ConfigQueryServerResponse::new(text("q"), text("x")),
    );
    assert!(told.is_empty());
    assert_eq!(service.cached(), 1);
}

#[test]
fn notification_of_another_tenant_does_not_touch_the_entry() {
    let mut service = connected_service("ns");
    service.listen(text("d"), text("g"), 1, text("l-1")).unwrap();
    service.on_server_push(notify("n-1", "d", "g", None));
    assert_eq!(
        service.on_business(),
        BusinessAction::Acknowledge(ConfigChangeNotifyClientResponse::new(text("n-1")))
    );
    service.on_server_push(notify("n-2", "d", "g", Some("ns")));
    assert_eq!(
        service.on_business(),
        BusinessAction::Refresh {
            ack: ConfigChangeNotifyClientResponse::new(text("n-2")),
            data_id: text("d"),
            group: text("g"),
            tenant: text("ns"),
        }
    );
}

#[test]
fn failed_refresh_leaves_the_entry_stale_and_tells_nobody() {
    let mut service = connected_service("");
    service.listen(text("d"), text("g"), 1, text("l-1")).unwrap();
    service.on_server_push(notify("n-1", "d", "g", None));
    service.on_business();
    let told = service.on_config_refreshed(
        text("d"),
        text("g"),
        text(""),
        ConfigQueryServerResponse::failed(text("q"), 500, 1, text("busy")),
    );
    assert!(told.is_empty());
    let entry = service.cache().get("d", "g", "").unwrap();
    assert!(entry.is_stale());
    assert_eq!(entry.get_content(), "");
}

#[test]
fn refresh_without_content_type_and_digest_uses_defaults() {
    let mut service = connected_service("");
    service.listen(text("d"), text("g"), 1, text("l-1")).unwrap();
    let told = service.on_config_refreshed(text("d"), text("g"), text(""), ConfigQueryServerResponse::new(text("q"), text("v")));
    assert_eq!(told.len(), 1);
    assert_eq!(told[0].response.get_content_type(), "text");
    let entry = service.cache().get("d", "g", "").unwrap();
    assert_eq!(entry.get_md5(), "");
    assert_eq!(entry.get_last_modified(), 0);
    assert_eq!(entry.get_encrypted_data_key(), None);
}

#[test]
fn refresh_passes_the_encrypted_data_key_on() {
    let mut service = connected_service("");
    service.listen(text("d"), text("g"), 1, text("l-1")).unwrap();
    let mut answer = ConfigQueryServerResponse::new(text("q"), text("cipher"));
    answer.encrypted_data_key = Some(text("opaque-key"));
    service.on_config_refreshed(text("d"), text("g"), text(""), answer);
    let entry = service.cache().get("d", "g", "").unwrap();
    assert_eq!(entry.get_encrypted_data_key(), Some(&text("opaque-key")));
}

#[test]
fn unrecognized_message_is_discarded_and_the_loop_goes_on() {
    let mut service = connected_service("");
    assert_eq!(service.on_server_push(ServerRequest::Unrecognized(text("BrandNewRequest"))), PushAction::Queued);
    service.on_server_push(notify("n-1", "d", "g", None));
    assert_eq!(service.on_business(), BusinessAction::Discard(text("BrandNewRequest")));
    assert_eq!(
        service.on_business(),
        BusinessAction::Acknowledge(ConfigChangeNotifyClientResponse::new(text("n-1")))
    );
    assert_eq!(service.get_state(), ConnectionState::Connected);
}

#[test]
fn full_business_queue_gives_the_message_back() {
    let mut service = connected_service("");
    for i in 0..128 {
        assert_eq!(service.on_server_push(notify(&format!("n{}", i), "d", "g", None)), PushAction::Queued);
    }
    let late = ConfigChangeNotifyServerRequest::new(text("late"), text("d"), text("g"), None);
    assert_eq!(
        service.on_server_push(ServerRequest::ConfigChangeNotify(ConfigChangeNotifyServerRequest::new(text("late"), text("d"), text("g"), None))),
        PushAction::Dropped(BusinessRequest::ConfigChangeNotify(late))
    );
    assert_eq!(service.queued(), 128);
}

#[test]
fn message_on_the_connection_goes_before_business() {
    let mut service = connected_service("");
    assert_eq!(service.next_turn(false), Turn::Idle);
    service.on_server_push(notify("n-1", "d", "g", None));
    assert_eq!(service.next_turn(true), Turn::Inbound);
    assert_eq!(service.next_turn(false), Turn::Business);
}

#[test]
fn reset_is_acknowledged_and_registrations_are_issued_again() {
    let mut service = connected_service("ns");
    service.listen(text("a"), text("g"), 1, text("l-1")).unwrap();
    service.listen(text("b"), text("g"), 2, text("l-2")).unwrap();
    let mut answer = ConfigQueryServerResponse::new(text("q"), text("v"));
    answer.md5 = Some(text("md5-b"));
    service.on_config_refreshed(text("b"), text("g"), text("ns"), answer);
    service.get_config(text("a"), text("g"), text("q-9"), 77, 0, 1000).unwrap();

    let action = service.on_server_push(ServerRequest::ConnectReset(ConnectResetServerRequest::new(text("reset-1"))));
    match action {
        PushAction::Reset { ack, failures } => {
            assert_eq!(ack, ConnectResetClientResponse::new(text("reset-1")));
            assert_eq!(failures.len(), 1);
            assert_eq!(failures[0].request.handle, 77);
            assert_eq!(failures[0].error, Error::TransportError(text("connection was lost")));
        }
        other => panic!("unexpected action {:?}", other),
    }
    assert_eq!(service.get_state(), ConnectionState::Disconnected);
    assert_eq!(service.in_flight(), 0);
    assert_eq!(service.cached(), 2);

    let setup = service.start(text("setup-2")).unwrap();
    assert_eq!(setup.tenant, "ns");
    assert_eq!(service.get_state(), ConnectionState::Connecting);
    assert!(service.start(text("setup-3")).is_none());
    let again = service.connected(text("listen-again")).unwrap();
    assert_eq!(service.get_state(), ConnectionState::Connected);
    assert_eq!(again.request_id, "listen-again");
    assert!(again.listen);
    assert_eq!(
        again.config_listen_contexts,
        vec![
            ConfigListenContext::new(text("a"), text("g"), text("ns"), text("")),
            ConfigListenContext::new(text("b"), text("g"), text("ns"), text("md5-b")),
        ]
    );
    assert!(service.connected(text("listen-3")).is_none());
}

#[test]
fn channel_failure_fails_the_requests_in_flight() {
    let mut service = connected_service("");
    service.get_config(text("a"), text("g"), text("q-1"), 1, 0, 1000).unwrap();
    service.get_config(text("b"), text("g"), text("q-2"), 2, 0, 1000).unwrap();
    let failures = service.disconnected();
    assert_eq!(failures.len(), 2);
    assert_eq!(failures[0].request.request_id, "q-1");
    assert_eq!(failures[1].request.request_id, "q-2");
    assert_eq!(failures[0].error, Error::TransportError(text("connection was lost")));
    assert_eq!(service.get_state(), ConnectionState::Disconnected);
}

#[test]
fn shutdown_cancels_the_requests_in_flight() {
    let mut service = connected_service("");
    service.get_config(text("a"), text("g"), text("q-1"), 1, 0, 1000).unwrap();
    let failures = service.shutdown();
    assert_eq!(failures.len(), 1);
    assert_eq!(failures[0].request.handle, 1);
    assert_eq!(failures[0].error, Error::Cancelled);
    assert_eq!(service.get_state(), ConnectionState::Disconnected);
    assert!(service.start(text("s")).is_none());
    assert_eq!(service.get_config(text("a"), text("g"), text("q-2"), 1, 0, 1), Err(Error::Cancelled));
}

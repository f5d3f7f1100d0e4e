use nacos_config::api::client_config::ClientConfig;
use nacos_config::api::error::Error;
use nacos_config::common::remote::conn::{Connection, ConnectionState};
use nacos_config::common::remote::pending::PendingRequest;
use nacos_config::common::remote::request::Request;
use std::collections::HashMap;

fn text(s: &str) -> String {
    s.to_string()
}

fn connected() -> Connection {
    let mut connection = Connection::new(ClientConfig::new());
    assert!(connection.connect(text("setup")).is_some());
    assert!(connection.established());
    connection
}

#[test]
fn new_connection_is_disconnected() {
    let connection = Connection::new(ClientConfig::new());
    assert_eq!(connection.get_state(), ConnectionState::Disconnected);
    assert!(!connection.is_connected());
    assert!(!connection.is_shut_down());
    assert_eq!(connection.pending_len(), 0);
}

#[test]
fn connect_yields_setup_message_with_tenant_and_labels() {
    let mut labels = HashMap::new();
    labels.insert(text("app"), text("demo"));
    let config = ClientConfig::new().namespace(text("tenant-a")).labels(labels.clone());
    let mut connection = Connection::new(config);
    let setup = connection.connect(text("id-1")).unwrap();
    assert_eq!(setup.request_id, "id-1");
    assert_eq!(setup.tenant, "tenant-a");
    assert_eq!(setup.labels, labels);
    assert_eq!(setup.client_version, "2.1.0");
    assert!(setup.headers.is_empty());
    assert_eq!(setup.get_type_url(), "ConnectionSetupRequest");
    assert_eq!(connection.get_state(), ConnectionState::Connecting);
}

#[test]
fn only_one_attempt_to_connect_runs_at_a_time() {
    let mut connection = Connection::new(ClientConfig::new());
    assert!(connection.connect(text("1")).is_some());
    assert!(connection.connect(text("2")).is_none());
    assert_eq!(connection.get_state(), ConnectionState::Connecting);
    assert!(connection.established());
    assert!(connection.connect(text("3")).is_none());
    assert_eq!(connection.get_state(), ConnectionState::Connected);
}

#[test]
fn established_counts_only_while_connecting() {
    let mut connection = Connection::new(ClientConfig::new());
    assert!(!connection.established());
    assert_eq!(connection.get_state(), ConnectionState::Disconnected);
    connection.connect(text("1"));
    assert!(connection.established());
    assert!(!connection.established());
    assert_eq!(connection.get_state(), ConnectionState::Connected);
}

#[test]
fn request_while_disconnected_fails_fast() {
    let mut connection = Connection::new(ClientConfig::new());
    assert_eq!(
        connection.send_request(text("1"), 1, 0, 1000),
        Err(Error::TransportError(text("connection is not established")))
    );
    connection.connect(text("s"));
    assert_eq!(
        connection.send_request(text("1"), 1, 0, 1000),
        Err(Error::TransportError(text("connection is not established")))
    );
    assert_eq!(connection.pending_len(), 0);
}

#[test]
fn request_with_id_in_flight_is_refused() {
    let mut connection = connected();
    assert_eq!(connection.send_request(text("1"), 1, 0, 1000), Ok(()));
    assert_eq!(
        connection.send_request(text("1"), 2, 0, 1000),
        Err(Error::ProtocolError(text("request id is already in flight")))
    );
    assert_eq!(connection.pending_len(), 1);
}

#[test]
fn response_completes_the_request_once() {
    let mut connection = connected();
    connection.send_request(text("1"), 11, 500, 1000).unwrap();
    connection.send_request(text("2"), 22, 500, 3000).unwrap();
    assert_eq!(
        connection.on_response(&text("2")),
        Some(PendingRequest { request_id: text("2"), handle: 22, deadline_ms: 3500 })
    );
    assert_eq!(connection.on_response(&text("2")), None);
    assert_eq!(connection.on_response(&text("nobody")), None);
    assert_eq!(connection.pending_len(), 1);
}

#[test]
fn deadline_is_now_plus_timeout_and_saturates() {
    let mut connection = connected();
    connection.send_request(text("a"), 1, 1000, 3000).unwrap();
    connection.send_request(text("b"), 2, u64::MAX - 5, 10).unwrap();
    connection.send_request(text("c"), 3, u64::MAX - 5, 5).unwrap();
    assert_eq!(connection.on_response(&text("a")).unwrap().deadline_ms, 4000);
    assert_eq!(connection.on_response(&text("b")).unwrap().deadline_ms, u64::MAX);
    assert_eq!(connection.on_response(&text("c")).unwrap().deadline_ms, u64::MAX);
}

#[test]
fn sweep_fails_due_requests_with_timeout() {
    let mut connection = connected();
    connection.send_request(text("a"), 1, 0, 100).unwrap();
    connection.send_request(text("b"), 2, 0, 300).unwrap();
    connection.send_request(text("c"), 3, 0, 200).unwrap();
    assert!(connection.sweep(99).is_empty());
    let failures = connection.sweep(200);
    assert_eq!(failures.len(), 2);
    assert_eq!(failures[0].request.request_id, "a");
    assert_eq!(failures[0].request.handle, 1);
    assert_eq!(failures[0].error, Error::Timeout);
    assert_eq!(failures[1].request.request_id, "c");
    assert_eq!(failures[1].error, Error::Timeout);
    assert_eq!(connection.pending_len(), 1);
    assert_eq!(connection.get_state(), ConnectionState::Connected);
    assert!(connection.on_response(&text("b")).is_some());
}

#[test]
fn loss_fails_all_requests_with_transport_error() {
    let mut connection = connected();
    connection.send_request(text("a"), 1, 0, 100).unwrap();
    connection.send_request(text("b"), 2, 0, 300).unwrap();
    let failures = connection.lost();
    assert_eq!(failures.len(), 2);
    assert_eq!(failures[0].request.handle, 1);
    assert_eq!(failures[1].request.handle, 2);
    for failure in &failures {
        assert_eq!(failure.error, Error::TransportError(text("connection was lost")));
    }
    assert_eq!(connection.get_state(), ConnectionState::Disconnected);
    assert_eq!(connection.pending_len(), 0);
    assert!(connection.connect(text("again")).is_some());
}

#[test]
fn shutdown_cancels_all_requests_and_stays_closed() {
    let mut connection = connected();
    connection.send_request(text("a"), 1, 0, 100).unwrap();
    connection.send_request(text("b"), 2, 0, 300).unwrap();
    let failures = connection.shutdown();
    assert_eq!(failures.len(), 2);
    assert_eq!(failures[0].request.request_id, "a");
    assert_eq!(failures[1].request.request_id, "b");
    for failure in &failures {
        assert_eq!(failure.error, Error::Cancelled);
    }
    assert!(connection.is_shut_down());
    assert_eq!(connection.get_state(), ConnectionState::Disconnected);
    assert_eq!(connection.pending_len(), 0);
    assert!(connection.connect(text("again")).is_none());
    assert_eq!(connection.send_request(text("c"), 3, 0, 1), Err(Error::Cancelled));
    assert!(connection.shutdown().is_empty());
}

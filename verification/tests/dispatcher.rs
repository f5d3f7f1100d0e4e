use nacos_config::common::remote::request::server_request::{
    ClientDetectionServerRequest, ConnectResetServerRequest,
};
use nacos_config::common::remote::response::client_response::{
    ClientDetectionClientResponse, ConnectResetClientResponse,
};
use nacos_config::config::dispatcher::{
    classify, BusinessRequest, InboundAction, ProtocolDispatcher, ServerRequest,
    ServerRequestKind, Turn, BUSINESS_QUEUE_CAPACITY,
};
use nacos_config::config::server_request::ConfigChangeNotifyServerRequest;

fn text(s: &str) -> String {
    s.to_string()
}

fn notify(id: &str) -> ConfigChangeNotifyServerRequest {
    ConfigChangeNotifyServerRequest::new(text(id), text("d"), text("g"), None)
}

#[test]
fn classify_knows_the_three_kinds() {
    assert_eq!(classify("ClientDetectionRequest"), ServerRequestKind::ClientDetection);
    assert_eq!(classify("ConnectResetRequest"), ServerRequestKind::ConnectReset);
    assert_eq!(classify("ConfigChangeNotifyRequest"), ServerRequestKind::ConfigChangeNotify);
}

#[test]
fn classify_takes_anything_else_as_unrecognized() {
    assert_eq!(classify(""), ServerRequestKind::Unrecognized);
    assert_eq!(classify("clientdetectionrequest"), ServerRequestKind::Unrecognized);
    assert_eq!(classify("ClientDetectionRequest "), ServerRequestKind::Unrecognized);
    assert_eq!(classify("ConfigQueryResponse"), ServerRequestKind::Unrecognized);
    assert_eq!(classify("SomethingNewRequest"), ServerRequestKind::Unrecognized);
}

#[test]
fn probe_is_answered_at_once_with_the_same_request_id() {
    let mut dispatcher = ProtocolDispatcher::new();
    let action = dispatcher.on_inbound(ServerRequest::ClientDetection(ClientDetectionServerRequest::new(text("probe-17"))));
    assert_eq!(action, InboundAction::ReplyDetection(ClientDetectionClientResponse::new(text("probe-17"))));
    match action {
        InboundAction::ReplyDetection(ack) => {
            assert_eq!(ack.request_id, Some(text("probe-17")));
            assert_eq!(ack.result_code, 200);
        }
        other => panic!("unexpected action {:?}", other),
    }
    assert_eq!(dispatcher.queued(), 0);
}

#[test]
fn probe_is_answered_whatever_waits_in_the_queue() {
    let mut dispatcher = ProtocolDispatcher::new();
    for i in 0..BUSINESS_QUEUE_CAPACITY {
        let action = dispatcher.on_inbound(ServerRequest::ConfigChangeNotify(notify(&format!("n{}", i))));
        assert_eq!(action, InboundAction::Queued);
    }
    assert_eq!(dispatcher.queued(), BUSINESS_QUEUE_CAPACITY);
    let action = dispatcher.on_inbound(ServerRequest::ClientDetection(ClientDetectionServerRequest::new(text("p"))));
    assert_eq!(action, InboundAction::ReplyDetection(ClientDetectionClientResponse::new(text("p"))));
    assert_eq!(dispatcher.queued(), BUSINESS_QUEUE_CAPACITY);
    assert_eq!(dispatcher.next_business(), Some(BusinessRequest::ConfigChangeNotify(notify("n0"))));
}

#[test]
fn reset_is_acknowledged_with_the_same_request_id() {
    let mut dispatcher = ProtocolDispatcher::new();
    let action = dispatcher.on_inbound(ServerRequest::ConnectReset(ConnectResetServerRequest::new(text("reset-3"))));
    assert_eq!(action, InboundAction::ReplyReset(ConnectResetClientResponse::new(text("reset-3"))));
    assert_eq!(dispatcher.queued(), 0);
}

#[test]
fn business_waits_in_arrival_order() {
    let mut dispatcher = ProtocolDispatcher::new();
    assert_eq!(dispatcher.on_inbound(ServerRequest::ConfigChangeNotify(notify("1"))), InboundAction::Queued);
    assert_eq!(dispatcher.on_inbound(ServerRequest::Unrecognized(text("FutureRequest"))), InboundAction::Queued);
    assert_eq!(dispatcher.on_inbound(ServerRequest::ConfigChangeNotify(notify("2"))), InboundAction::Queued);
    assert_eq!(dispatcher.queued(), 3);
    assert_eq!(dispatcher.next_business(), Some(BusinessRequest::ConfigChangeNotify(notify("1"))));
    assert_eq!(dispatcher.next_business(), Some(BusinessRequest::Unrecognized(text("FutureRequest"))));
    assert_eq!(dispatcher.next_business(), Some(BusinessRequest::ConfigChangeNotify(notify("2"))));
    assert_eq!(dispatcher.next_business(), None);
    assert_eq!(dispatcher.queued(), 0);
}

#[test]
fn full_queue_gives_the_message_back() {
    let mut dispatcher = ProtocolDispatcher::new();
    for i in 0..128 {
        assert_eq!(
            dispatcher.on_inbound(ServerRequest::ConfigChangeNotify(notify(&format!("n{}", i)))),
            InboundAction::Queued
        );
    }
    let action = dispatcher.on_inbound(ServerRequest::ConfigChangeNotify(notify("late")));
    assert_eq!(action, InboundAction::Dropped(BusinessRequest::ConfigChangeNotify(notify("late"))));
    assert_eq!(dispatcher.queued(), 128);
    dispatcher.next_business();
    assert_eq!(dispatcher.on_inbound(ServerRequest::ConfigChangeNotify(notify("late"))), InboundAction::Queued);
    assert_eq!(dispatcher.queued(), 128);
}

#[test]
fn inbound_goes_before_business() {
    let mut dispatcher = ProtocolDispatcher::new();
    assert_eq!(dispatcher.next_turn(false), Turn::Idle);
    assert_eq!(dispatcher.next_turn(true), Turn::Inbound);
    dispatcher.on_inbound(ServerRequest::ConfigChangeNotify(notify("1")));
    assert_eq!(dispatcher.next_turn(true), Turn::Inbound);
    assert_eq!(dispatcher.next_turn(false), Turn::Business);
    dispatcher.next_business();
    assert_eq!(dispatcher.next_turn(false), Turn::Idle);
}

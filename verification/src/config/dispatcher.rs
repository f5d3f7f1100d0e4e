//! The dispatch of what the server sends on its own.
//!
//! Messages about the connection itself (keep-alive probes and resets)
//! are answered at once. Everything else is business: it is put into a
//! bounded queue and handled when no message waits to be read, so that a
//! backlog of business never delays the answer to a probe.

use crate::common::remote::request::server_request::{
    ClientDetectionServerRequest, ConnectResetServerRequest,
};
use crate::common::remote::request::{
    TYPE_CLIENT_DETECTION_SERVER_REQUEST, TYPE_CONNECT_RESET_SERVER_REQUEST,
};
use crate::common::remote::response::client_response::{
    ClientDetectionClientResponse, ConnectResetClientResponse,
};
use crate::config::server_request::{
    ConfigChangeNotifyServerRequest, TYPE_CONFIG_CHANGE_NOTIFY_SERVER_REQUEST,
};
use crate::config::util::same_text;
use std::collections::VecDeque;
use vstd::prelude::*;

verus! {

/// How many business messages may wait to be handled.
pub const BUSINESS_QUEUE_CAPACITY: usize = 128;

/// The kinds of message that the server sends on its own.
#[derive(Clone, Copy, Debug, PartialEq, Eq, Structural)]
pub enum ServerRequestKind {
    /// A keep-alive probe.
    ClientDetection,
    /// A demand to connect anew.
    ConnectReset,
    /// The news that an item has changed.
    ConfigChangeNotify,
    /// A type identifier that this client does not know.
    Unrecognized,
}

/// The type identifier of each kind that has one.
pub open spec fn spec_classify(type_url: Seq<char>) -> ServerRequestKind {
    if type_url == TYPE_CLIENT_DETECTION_SERVER_REQUEST@ {
        ServerRequestKind::ClientDetection
    } else if type_url == TYPE_CONNECT_RESET_SERVER_REQUEST@ {
        ServerRequestKind::ConnectReset
    } else if type_url == TYPE_CONFIG_CHANGE_NOTIFY_SERVER_REQUEST@ {
        ServerRequestKind::ConfigChangeNotify
    } else {
        ServerRequestKind::Unrecognized
    }
}

/// Classifies a message of the server by its type identifier, so that the
/// caller knows as what to read its body.
pub fn classify(type_url: &str) -> (r: ServerRequestKind)
    ensures
        r == spec_classify(type_url@),
{
    if same_text(type_url, TYPE_CLIENT_DETECTION_SERVER_REQUEST) {
        ServerRequestKind::ClientDetection
    } else if same_text(type_url, TYPE_CONNECT_RESET_SERVER_REQUEST) {
        ServerRequestKind::ConnectReset
    } else if same_text(type_url, TYPE_CONFIG_CHANGE_NOTIFY_SERVER_REQUEST) {
        ServerRequestKind::ConfigChangeNotify
    } else {
        ServerRequestKind::Unrecognized
    }
}

/// A message that the server sent on its own, read according to its kind.
#[derive(Clone, Debug, PartialEq, Eq)]
pub enum ServerRequest {
    ClientDetection(ClientDetectionServerRequest),
    ConnectReset(ConnectResetServerRequest),
    ConfigChangeNotify(ConfigChangeNotifyServerRequest),
    /// A message of a kind that this client does not know, with its type
    /// identifier.
    Unrecognized(String),
}

/// A message that waits in the business queue.
#[derive(Clone, Debug, PartialEq, Eq)]
pub enum BusinessRequest {
    ConfigChangeNotify(ConfigChangeNotifyServerRequest),
    /// A message of a kind that this client does not know, with its type
    /// identifier.
    Unrecognized(String),
}

impl ServerRequest {
    /// The kind of the message.
    pub open spec fn kind(self) -> ServerRequestKind {
        match self {
            ServerRequest::ClientDetection(_) => ServerRequestKind::ClientDetection,
            ServerRequest::ConnectReset(_) => ServerRequestKind::ConnectReset,
            ServerRequest::ConfigChangeNotify(_) => ServerRequestKind::ConfigChangeNotify,
            ServerRequest::Unrecognized(_) => ServerRequestKind::Unrecognized,
        }
    }

    /// Whether the message is about the connection itself.
    pub open spec fn is_control(self) -> bool {
        self.kind() == ServerRequestKind::ClientDetection || self.kind()
            == ServerRequestKind::ConnectReset
    }

    /// The message as business, if it is business.
    pub open spec fn business(self) -> Option<BusinessRequest> {
        match self {
            ServerRequest::ConfigChangeNotify(request) => Some(
                BusinessRequest::ConfigChangeNotify(request),
            ),
            ServerRequest::Unrecognized(type_url) => Some(BusinessRequest::Unrecognized(type_url)),
            _ => None,
        }
    }
}

/// What is to be done at once about a message of the server.
#[derive(Debug, PartialEq, Eq)]
pub enum InboundAction {
    /// Send this acknowledgement of a keep-alive probe.
    ReplyDetection(ClientDetectionClientResponse),
    /// Send this acknowledgement of a reset, then give the connection up
    /// and connect anew.
    ReplyReset(ConnectResetClientResponse),
    /// Nothing: the message waits in the business queue.
    Queued,
    /// Nothing: the business queue is full, and the message is given
    /// back unhandled.
    Dropped(BusinessRequest),
}

/// Which source the dispatch loop serves next.
#[derive(Clone, Copy, Debug, PartialEq, Eq, Structural)]
pub enum Turn {
    /// Read the message that waits on the connection.
    Inbound,
    /// Handle the oldest message of the business queue.
    Business,
    /// Wait: there is nothing to do.
    Idle,
}

/// Which source is served next: a message on the connection goes before
/// the business queue, however long the queue is.
pub open spec fn spec_next_turn(inbound_ready: bool, queued: nat) -> Turn {
    if inbound_ready {
        Turn::Inbound
    } else if queued > 0 {
        Turn::Business
    } else {
        Turn::Idle
    }
}

/// The dispatcher: the queue of business messages that wait to be
/// handled, oldest first.
#[derive(Debug)]
pub struct ProtocolDispatcher {
    backlog: VecDeque<BusinessRequest>,
}

impl View for ProtocolDispatcher {
    type V = Seq<BusinessRequest>;

    closed spec fn view(&self) -> Seq<BusinessRequest> {
        self.backlog@
    }
}

impl ProtocolDispatcher {
    /// The dispatcher is well formed: the queue is within its capacity.
    pub open spec fn wf(&self) -> bool {
        self@.len() <= BUSINESS_QUEUE_CAPACITY
    }

    /// A dispatcher with an empty queue.
    pub fn new() -> (r: Self)
        ensures
            r.wf(),
            r@ == Seq::<BusinessRequest>::empty(),
    {
        ProtocolDispatcher { backlog: VecDeque::new() }
    }

    /// The number of business messages that wait.
    pub fn queued(&self) -> (r: usize)
        ensures
            r == self@.len(),
    {
        self.backlog.len()
    }

    /// Takes one message of the server.
    ///
    /// A keep-alive probe and a reset are answered at once, with an
    /// acknowledgement under the request id of the message, and leave the
    /// queue as it is, whatever it holds. Any other message is put at the
    /// end of the queue; if the queue is full it is given back instead.
    pub fn on_inbound(&mut self, request: ServerRequest) -> (r: InboundAction)
        requires
            old(self).wf(),
        ensures
            final(self).wf(),
            match request {
                ServerRequest::ClientDetection(probe) => {
                    &&& r == InboundAction::ReplyDetection(
                        ClientDetectionClientResponse {
                            request_id: Some(probe.request_id),
                            result_code: 200,
                            error_code: 0,
                            message: None,
                        },
                    )
                    &&& final(self)@ == old(self)@
                },
                ServerRequest::ConnectReset(reset) => {
                    &&& r == InboundAction::ReplyReset(
                        ConnectResetClientResponse {
                            request_id: Some(reset.request_id),
                            result_code: 200,
                            error_code: 0,
                            message: None,
                        },
                    )
                    &&& final(self)@ == old(self)@
                },
                _ => if old(self)@.len() < BUSINESS_QUEUE_CAPACITY {
                    &&& r == InboundAction::Queued
                    &&& final(self)@ == old(self)@.push(request.business().unwrap())
                } else {
                    &&& r == InboundAction::Dropped(request.business().unwrap())
                    &&& final(self)@ == old(self)@
                },
            },
    {
        match request {
            ServerRequest::ClientDetection(probe) => InboundAction::ReplyDetection(
                ClientDetectionClientResponse::new(probe.request_id),
            ),
            ServerRequest::ConnectReset(reset) => InboundAction::ReplyReset(
                ConnectResetClientResponse::new(reset.request_id),
            ),
            ServerRequest::ConfigChangeNotify(notify) => self.enqueue(
                BusinessRequest::ConfigChangeNotify(notify),
            ),
            ServerRequest::Unrecognized(type_url) => self.enqueue(
                BusinessRequest::Unrecognized(type_url),
            ),
        }
    }

    /// Puts a business message at the end of the queue, or gives it back
    /// if the queue is full.
    fn enqueue(&mut self, request: BusinessRequest) -> (r: InboundAction)
        requires
            old(self).wf(),
        ensures
            final(self).wf(),
            old(self)@.len() < BUSINESS_QUEUE_CAPACITY ==> {
                &&& r == InboundAction::Queued
                &&& final(self)@ == old(self)@.push(request)
            },
            old(self)@.len() >= BUSINESS_QUEUE_CAPACITY ==> {
                &&& r == InboundAction::Dropped(request)
                &&& final(self)@ == old(self)@
            },
    {
        if self.backlog.len() < BUSINESS_QUEUE_CAPACITY {
            self.backlog.push_back(request);
            InboundAction::Queued
        } else {
            InboundAction::Dropped(request)
        }
    }

    /// Which source the dispatch loop serves next, given whether a
    /// message waits on the connection.
    pub fn next_turn(&self, inbound_ready: bool) -> (r: Turn)
        ensures
            r == spec_next_turn(inbound_ready, self@.len()),
    {
        if inbound_ready {
            Turn::Inbound
        } else if self.backlog.len() > 0 {
            Turn::Business
        } else {
            Turn::Idle
        }
    }

    /// Takes the oldest business message out of the queue.
    pub fn next_business(&mut self) -> (r: Option<BusinessRequest>)
        requires
            old(self).wf(),
        ensures
            final(self).wf(),
            r.is_some() == (old(self)@.len() > 0),
            r.is_some() ==> r.unwrap() == old(self)@[0] && final(self)@ == old(self)@.drop_first(),
            r.is_none() ==> final(self)@ == old(self)@,
    {
        let r = self.backlog.pop_front();
        proof {
            if r.is_some() {
                assert(self@ =~= old(self)@.drop_first());
            }
        }
        r
    }
}

} // verus!

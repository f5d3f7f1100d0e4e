//! The configuration service: cache, listeners and the config protocol.
//!
//! [`NacosConfigService`] holds the connection, the cache and the
//! dispatcher, and decides what follows from each call of the application
//! and from each event on the connection. It sends and receives nothing
//! itself: what is to be sent is returned, and what was received is
//! handed in.

pub mod client_request;
pub mod client_response;
pub mod dispatcher;
pub mod server_request;
pub mod server_response;
pub mod util;
pub mod worker;

use crate::api::client_config::ClientConfig;
use crate::api::error::{Error, ErrorView};
use crate::common::remote::conn::{
    deadline, fails_all, send_refusal, Connection, ConnectionState, Failure,
    MESSAGE_CONNECTION_LOST, MESSAGE_NOT_CONNECTED,
};
use crate::common::remote::pending::{
    expired, is_pending, pending_position, unexpired, PendingRequest,
};
use crate::common::remote::request::client_request::ConnectionSetupClientRequest;
use crate::common::remote::request::CLIENT_VERSION;
use crate::common::remote::response::client_response::{
    ClientDetectionClientResponse, ConnectResetClientResponse,
};
use crate::common::remote::response::RESULT_CODE_SUCCESS;
use crate::config::client_request::{
    ConfigBatchListenClientRequest, ConfigQueryClientRequest,
};
use crate::config::client_response::ConfigChangeNotifyClientResponse;
use crate::config::dispatcher::{
    spec_next_turn, BusinessRequest, InboundAction, ProtocolDispatcher, ServerRequest, Turn,
    BUSINESS_QUEUE_CAPACITY,
};
use crate::config::server_response::ConfigQueryServerResponse;
use crate::config::worker::{
    distinct_items, has_item, is_registration_of, item_position, lemma_marked_stale,
    lemma_refreshed, lemma_with_listener, marked_stale, notification_views, notifications_for,
    refreshed, text_of, with_listener, CacheDataView, ConfigWorker, ContentUpdate, Notification,
    DEFAULT_CONTENT_TYPE,
};
use vstd::prelude::*;
use vstd::string::*;

verus! {

/// What is to be done at once about a message of the server.
#[derive(Debug, PartialEq, Eq)]
pub enum PushAction {
    /// Send this acknowledgement of a keep-alive probe.
    ReplyDetection(ClientDetectionClientResponse),
    /// Send this acknowledgement of a reset, give the channel up, fail
    /// these requests, then connect anew.
    Reset { ack: ConnectResetClientResponse, failures: Vec<Failure> },
    /// Nothing: the message waits in the business queue.
    Queued,
    /// Nothing: the business queue is full, and the message is given
    /// back unhandled.
    Dropped(BusinessRequest),
}

/// What is to be done about the oldest business message.
#[derive(Debug, PartialEq, Eq)]
pub enum BusinessAction {
    /// The queue was empty.
    Idle,
    /// An item of the cache has changed: send this acknowledgement, then
    /// query the item and hand the answer to
    /// [`NacosConfigService::on_config_refreshed`].
    Refresh {
        ack: ConfigChangeNotifyClientResponse,
        data_id: String,
        group: String,
        tenant: String,
    },
    /// An item has changed that the cache does not hold: send this
    /// acknowledgement, and nothing else.
    Acknowledge(ConfigChangeNotifyClientResponse),
    /// A message of a kind that this client does not know, with its type
    /// identifier: nothing is to be done.
    Discard(String),
}

/// The text of an optional string, empty where there is none.
pub open spec fn text_or_empty(value: Option<String>) -> Seq<char> {
    match value {
        Some(text) => text@,
        None => Seq::empty(),
    }
}

/// What an answer to a config query means to the caller: the content if
/// the result code is success and there is content, `NotFound` if the
/// result code is success and there is none, and otherwise the server's
/// error with the error code and the message of the answer.
pub open spec fn spec_config_result(response: ConfigQueryServerResponse) -> Result<
    Seq<char>,
    ErrorView,
> {
    if response.result_code != RESULT_CODE_SUCCESS {
        Err(
            ErrorView::ServerError {
                code: response.error_code as int,
                message: text_or_empty(response.message),
            },
        )
    } else {
        match response.content {
            Some(content) => Ok(content@),
            None => Err(ErrorView::NotFound),
        }
    }
}

/// An answer with the result code of success yields its content, and an
/// answer with any other result code yields the error of the server with
/// the error code and the message of that answer.
pub proof fn lemma_config_result(response: ConfigQueryServerResponse)
    ensures
        response.result_code == RESULT_CODE_SUCCESS && response.content.is_some()
            ==> spec_config_result(response) == Ok::<Seq<char>, ErrorView>(
            response.content.unwrap()@,
        ),
        response.result_code != RESULT_CODE_SUCCESS ==> spec_config_result(response) == Err::<
            Seq<char>,
            ErrorView,
        >(
            ErrorView::ServerError {
                code: response.error_code as int,
                message: text_or_empty(response.message),
            },
        ),
{
}

/// What an answer to a config query writes into the cache, if anything:
/// a successful answer with content writes the content, the content type
/// (the default where the answer names none), the digest (empty where the
/// answer names none), the key token and the timestamp.
pub open spec fn update_of(response: ConfigQueryServerResponse) -> Option<ContentUpdate> {
    if response.result_code == RESULT_CODE_SUCCESS && response.content.is_some() {
        Some(
            ContentUpdate {
                content: response.content.unwrap()@,
                content_type: match response.content_type {
                    Some(content_type) => content_type@,
                    None => DEFAULT_CONTENT_TYPE@,
                },
                md5: text_or_empty(response.md5),
                encrypted_data_key: text_of(response.encrypted_data_key),
                last_modified: response.last_modified,
            },
        )
    } else {
        None
    }
}

/// The config service of one client.
pub struct NacosConfigService {
    client_config: ClientConfig,
    connection: Connection,
    worker: ConfigWorker,
    dispatcher: ProtocolDispatcher,
}

impl NacosConfigService {
    /// The options that the service was made with.
    pub closed spec fn config(&self) -> ClientConfig {
        self.client_config
    }

    /// The link to the server.
    pub closed spec fn connection(&self) -> Connection {
        self.connection
    }

    /// The entries of the cache, in the order of their creation.
    pub closed spec fn entries(&self) -> Seq<CacheDataView> {
        self.worker.entries()
    }

    /// The business messages that wait to be handled, oldest first.
    pub closed spec fn backlog(&self) -> Seq<BusinessRequest> {
        self.dispatcher@
    }

    /// The parts of the service agree with each other.
    pub closed spec fn consistent(&self) -> bool {
        &&& self.worker.wf()
        &&& self.dispatcher.wf()
        &&& self.connection.config().namespace@ == self.client_config.namespace@
        &&& self.connection.config().labels@ == self.client_config.labels@
    }

    /// The service is well formed.
    pub open spec fn wf(&self) -> bool {
        &&& self.consistent()
        &&& self.connection().wf()
        &&& distinct_items(self.entries())
        &&& self.backlog().len() <= BUSINESS_QUEUE_CAPACITY
    }

    /// A service that is not connected, with an empty cache.
    pub fn new(client_config: ClientConfig) -> (r: Self)
        ensures
            r.wf(),
            r.config() == client_config,
            r.connection().state() == ConnectionState::Disconnected,
            !r.connection().is_closed(),
            r.connection().pending() == Seq::<PendingRequest>::empty(),
            r.entries() == Seq::<CacheDataView>::empty(),
            r.backlog() == Seq::<BusinessRequest>::empty(),
    {
        let connection = Connection::new(client_config.clone());
        let worker = ConfigWorker::new(client_config.clone());
        let dispatcher = ProtocolDispatcher::new();
        NacosConfigService { client_config, connection, worker, dispatcher }
    }

    /// Where the connection stands.
    pub fn get_state(&self) -> (r: ConnectionState)
        ensures
            r == self.connection().state(),
    {
        self.connection.get_state()
    }

    /// The cache, to look items up in.
    pub fn cache(&self) -> (r: &ConfigWorker)
        requires
            self.wf(),
        ensures
            r.wf(),
            r.entries() == self.entries(),
    {
        &self.worker
    }

    /// The number of cached items.
    pub fn cached(&self) -> (r: usize)
        ensures
            r == self.entries().len(),
    {
        self.worker.len()
    }

    /// The number of business messages that wait.
    pub fn queued(&self) -> (r: usize)
        ensures
            r == self.backlog().len(),
    {
        self.dispatcher.queued()
    }

    /// The number of requests in flight.
    pub fn in_flight(&self) -> (r: usize)
        ensures
            r == self.connection().pending().len(),
    {
        self.connection.pending_len()
    }

    /// start Once
    ///
    /// Starts to connect, at the start or after the connection was given
    /// up. From `Disconnected`, unless the service was shut down, the
    /// state becomes `Connecting` and the setup message to send on the
    /// new channel is returned, with the tenant and the labels of the
    /// options. Otherwise nothing changes and nothing is returned.
    pub fn start(&mut self, request_id: String) -> (r: Option<ConnectionSetupClientRequest>)
        requires
            old(self).wf(),
        ensures
            final(self).wf(),
            final(self).config() == old(self).config(),
            final(self).entries() == old(self).entries(),
            final(self).backlog() == old(self).backlog(),
            final(self).connection().pending() == old(self).connection().pending(),
            final(self).connection().is_closed() == old(self).connection().is_closed(),
            r.is_some() == (old(self).connection().state() == ConnectionState::Disconnected
                && !old(self).connection().is_closed()),
            r.is_some() ==> {
                &&& final(self).connection().state() == ConnectionState::Connecting
                &&& r.unwrap().request_id == request_id
                &&& r.unwrap().headers@ == Map::<String, String>::empty()
                &&& r.unwrap().client_version@ == CLIENT_VERSION@
                &&& r.unwrap().tenant@ == old(self).config().namespace@
                &&& r.unwrap().labels@ == old(self).config().labels@
            },
            r.is_none() ==> final(self).connection().state() == old(self).connection().state(),
    {
        self.connection.connect(request_id)
    }

    /// Reports that the channel is open and the setup message was sent.
    /// From `Connecting` the state becomes `Connected`, and if the cache
    /// holds items, the registration that declares all of them anew is
    /// returned, so that no subscription is lost over a reconnect. In any
    /// other state nothing changes and nothing is returned.
    pub fn connected(&mut self, request_id: String) -> (r: Option<ConfigBatchListenClientRequest>)
        requires
            old(self).wf(),
        ensures
            final(self).wf(),
            final(self).config() == old(self).config(),
            final(self).entries() == old(self).entries(),
            final(self).backlog() == old(self).backlog(),
            final(self).connection().pending() == old(self).connection().pending(),
            final(self).connection().is_closed() == old(self).connection().is_closed(),
            final(self).connection().state() == (if old(self).connection().state()
                == ConnectionState::Connecting {
                ConnectionState::Connected
            } else {
                old(self).connection().state()
            }),
            r.is_some() == (old(self).connection().state() == ConnectionState::Connecting && old(
                self,
            ).entries().len() > 0),
            r.is_some() ==> {
                &&& r.unwrap().request_id == request_id
                &&& r.unwrap().headers@ == Map::<String, String>::empty()
                &&& r.unwrap().listen
                &&& is_registration_of(r.unwrap().config_listen_contexts@, old(self).entries())
            },
    {
        if self.connection.established() && self.worker.len() > 0 {
            let contexts = self.worker.listen_contexts();
            let registration = ConfigBatchListenClientRequest::new(request_id, true);
            Some(registration.config_listen_contexts(contexts))
        } else {
            None
        }
    }

    /// Reports that the channel failed. The state becomes `Disconnected`
    /// and every request in flight fails with a transport error; the
    /// cache and the business queue stay as they are.
    pub fn disconnected(&mut self) -> (r: Vec<Failure>)
        requires
            old(self).wf(),
        ensures
            final(self).wf(),
            final(self).config() == old(self).config(),
            final(self).entries() == old(self).entries(),
            final(self).backlog() == old(self).backlog(),
            final(self).connection().is_closed() == old(self).connection().is_closed(),
            final(self).connection().state() == ConnectionState::Disconnected,
            final(self).connection().pending() == Seq::<PendingRequest>::empty(),
            fails_all(
                r@,
                old(self).connection().pending(),
                ErrorView::TransportError(MESSAGE_CONNECTION_LOST@),
            ),
    {
        self.connection.lost()
    }

    /// Prepares the query for the item `(data_id, group, tenant)` and
    /// enters it among the requests in flight, to wait for its answer
    /// until `timeout_ms` after `now_ms`.
    ///
    /// Fails, and changes nothing, after a shutdown (`Cancelled`), while
    /// the connection is not established (`TransportError`), and for a
    /// request id that is in flight already (`ProtocolError`).
    pub fn query_config(
        &mut self,
        data_id: String,
        group: String,
        tenant: String,
        request_id: String,
        handle: u64,
        now_ms: u64,
        timeout_ms: u64,
    ) -> (r: Result<ConfigQueryClientRequest, Error>)
        requires
            old(self).wf(),
        ensures
            final(self).wf(),
            final(self).config() == old(self).config(),
            final(self).entries() == old(self).entries(),
            final(self).backlog() == old(self).backlog(),
            final(self).connection().state() == old(self).connection().state(),
            final(self).connection().is_closed() == old(self).connection().is_closed(),
            match r {
                Ok(query) => {
                    &&& send_refusal(old(self).connection(), request_id@).is_none()
                    &&& query.request_id@ == request_id@
                    &&& query.headers@ == Map::<String, String>::empty()
                    &&& query.data_id == data_id
                    &&& query.group == group
                    &&& query.tenant == tenant
                    &&& final(self).connection().pending() == old(self).connection().pending().push(
                        PendingRequest {
                            request_id,
                            handle,
                            deadline_ms: deadline(now_ms, timeout_ms),
                        },
                    )
                },
                Err(e) => {
                    &&& send_refusal(old(self).connection(), request_id@) == Some(e@)
                    &&& final(self).connection().pending() == old(self).connection().pending()
                },
            },
    {
        let query_id = request_id.clone();
        match self.connection.send_request(request_id, handle, now_ms, timeout_ms) {
            Ok(_) => Ok(ConfigQueryClientRequest::new(query_id, data_id, group, tenant)),
            Err(e) => Err(e),
        }
    }

    /// Prepares the query for the item `(data_id, group)` of the client's
    /// own tenant, as [`NacosConfigService::query_config`] does. The
    /// cache is never asked: every call goes to the server. What the
    /// answer means says [`NacosConfigService::get_config_result`].
    pub fn get_config(
        &mut self,
        data_id: String,
        group: String,
        request_id: String,
        handle: u64,
        now_ms: u64,
        timeout_ms: u64,
    ) -> (r: Result<ConfigQueryClientRequest, Error>)
        requires
            old(self).wf(),
        ensures
            final(self).wf(),
            final(self).config() == old(self).config(),
            final(self).entries() == old(self).entries(),
            final(self).backlog() == old(self).backlog(),
            final(self).connection().state() == old(self).connection().state(),
            final(self).connection().is_closed() == old(self).connection().is_closed(),
            match r {
                Ok(query) => {
                    &&& send_refusal(old(self).connection(), request_id@).is_none()
                    &&& query.request_id@ == request_id@
                    &&& query.headers@ == Map::<String, String>::empty()
                    &&& query.data_id == data_id
                    &&& query.group == group
                    &&& query.tenant@ == old(self).config().namespace@
                    &&& final(self).connection().pending() == old(self).connection().pending().push(
                        PendingRequest {
                            request_id,
                            handle,
                            deadline_ms: deadline(now_ms, timeout_ms),
                        },
                    )
                },
                Err(e) => {
                    &&& send_refusal(old(self).connection(), request_id@) == Some(e@)
                    &&& final(self).connection().pending() == old(self).connection().pending()
                },
            },
    {
        let tenant = self.client_config.namespace.clone();
        self.query_config(data_id, group, tenant, request_id, handle, now_ms, timeout_ms)
    }

    /// What an answer to a config query means to the caller of
    /// `get_config`: see [`spec_config_result`].
    pub fn get_config_result(response: ConfigQueryServerResponse) -> (r: Result<String, Error>)
        ensures
            match r {
                Ok(content) => spec_config_result(response) == Ok::<Seq<char>, ErrorView>(content@),
                Err(e) => spec_config_result(response) == Err::<Seq<char>, ErrorView>(e@),
            },
    {
        if response.result_code != RESULT_CODE_SUCCESS {
            let message = match response.message {
                Some(text) => text,
                None => String::new(),
            };
            Err(Error::ServerError { code: response.error_code, message })
        } else {
            match response.content {
                Some(content) => Ok(content),
                None => Err(Error::NotFound),
            }
        }
    }

    /// Registers `listener` for the item `(data_id, group)` of the
    /// client's own tenant and returns the registration to send, which
    /// carries the digest of the content that the cache holds of the
    /// item (empty if it holds none).
    ///
    /// The entry of the item is created if there is none; an item never
    /// gets a second entry. Fails after a shutdown (`Cancelled`) and
    /// while the connection is not established (`TransportError`); the
    /// cache is then left as it is.
    pub fn listen(
        &mut self,
        data_id: String,
        group: String,
        listener: u64,
        request_id: String,
    ) -> (r: Result<ConfigBatchListenClientRequest, Error>)
        requires
            old(self).wf(),
        ensures
            final(self).wf(),
            final(self).config() == old(self).config(),
            final(self).connection() == old(self).connection(),
            final(self).backlog() == old(self).backlog(),
            match r {
                Ok(registration) => {
                    let tenant = old(self).config().namespace@;
                    let before = old(self).entries();
                    let after = with_listener(before, data_id@, group@, tenant, listener);
                    &&& listen_refusal(old(self).connection()).is_none()
                    &&& final(self).entries() == after
                    &&& registration.request_id == request_id
                    &&& registration.headers@ == Map::<String, String>::empty()
                    &&& registration.listen
                    &&& registration.config_listen_contexts@.len() == 1
                    &&& registration.config_listen_contexts@[0].data_id@ == data_id@
                    &&& registration.config_listen_contexts@[0].group@ == group@
                    &&& registration.config_listen_contexts@[0].tenant@ == tenant
                    &&& registration.config_listen_contexts@[0].md5@ == after[item_position(
                        after,
                        data_id@,
                        group@,
                        tenant,
                    )].md5
                },
                Err(e) => {
                    &&& listen_refusal(old(self).connection()) == Some(e@)
                    &&& final(self).entries() == old(self).entries()
                },
            },
    {
        if self.connection.is_shut_down() {
            return Err(Error::Cancelled);
        }
        if !self.connection.is_connected() {
            return Err(Error::TransportError(String::from_str(MESSAGE_NOT_CONNECTED)));
        }
        let tenant = self.client_config.namespace.clone();
        self.worker.add_listener(data_id.clone(), group.clone(), tenant.clone(), listener);
        proof {
            lemma_with_listener(
                old(self).entries(),
                data_id@,
                group@,
                tenant@,
                listener,
            );
        }
        let context = self.worker.listen_context(data_id.as_str(), group.as_str(), tenant.as_str());
        let registration = ConfigBatchListenClientRequest::new(request_id, true);
        match context {
            Some(context) => Ok(registration.add_config_listen_context(context)),
            None => Ok(registration),
        }
    }

    /// Takes one message of the server.
    ///
    /// A keep-alive probe is answered at once with an acknowledgement
    /// under its request id; nothing else changes, whatever waits in the
    /// business queue. A reset is acknowledged in the same way, and the
    /// connection is given up: the state becomes `Disconnected` and the
    /// requests in flight fail with a transport error. Any other message
    /// is put at the end of the business queue; if the queue is full it
    /// is given back instead.
    pub fn on_server_push(&mut self, request: ServerRequest) -> (r: PushAction)
        requires
            old(self).wf(),
        ensures
            final(self).wf(),
            final(self).config() == old(self).config(),
            final(self).entries() == old(self).entries(),
            match request {
                ServerRequest::ClientDetection(probe) => {
                    &&& r == PushAction::ReplyDetection(
                        ClientDetectionClientResponse {
                            request_id: Some(probe.request_id),
                            result_code: RESULT_CODE_SUCCESS,
                            error_code: 0,
                            message: None,
                        },
                    )
                    &&& final(self).backlog() == old(self).backlog()
                    &&& final(self).connection() == old(self).connection()
                },
                ServerRequest::ConnectReset(reset) => {
                    &&& r is Reset
                    &&& r->ack == (ConnectResetClientResponse {
                        request_id: Some(reset.request_id),
                        result_code: RESULT_CODE_SUCCESS,
                        error_code: 0,
                        message: None,
                    })
                    &&& fails_all(
                        r->failures@,
                        old(self).connection().pending(),
                        ErrorView::TransportError(MESSAGE_CONNECTION_LOST@),
                    )
                    &&& final(self).backlog() == old(self).backlog()
                    &&& final(self).connection().state() == ConnectionState::Disconnected
                    &&& final(self).connection().pending() == Seq::<PendingRequest>::empty()
                    &&& final(self).connection().is_closed() == old(self).connection().is_closed()
                },
                _ => {
                    &&& final(self).connection() == old(self).connection()
                    &&& if old(self).backlog().len() < BUSINESS_QUEUE_CAPACITY {
                        &&& r == PushAction::Queued
                        &&& final(self).backlog() == old(self).backlog().push(
                            request.business().unwrap(),
                        )
                    } else {
                        &&& r == PushAction::Dropped(request.business().unwrap())
                        &&& final(self).backlog() == old(self).backlog()
                    }
                },
            },
    {
        match self.dispatcher.on_inbound(request) {
            InboundAction::ReplyDetection(ack) => PushAction::ReplyDetection(ack),
            InboundAction::ReplyReset(ack) => {
                let failures = self.connection.lost();
                PushAction::Reset { ack, failures }
            },
            InboundAction::Queued => PushAction::Queued,
            InboundAction::Dropped(request) => PushAction::Dropped(request),
        }
    }

    /// Which source the dispatch loop serves next, given whether a
    /// message waits on the connection: such a message goes before the
    /// business queue, however long the queue is.
    pub fn next_turn(&self, inbound_ready: bool) -> (r: Turn)
        ensures
            r == spec_next_turn(inbound_ready, self.backlog().len()),
    {
        self.dispatcher.next_turn(inbound_ready)
    }

    /// Handles the oldest business message.
    ///
    /// A change notification is always acknowledged under its request
    /// id. If the cache holds the item, its entry is marked stale and the
    /// item is to be queried; if not, nothing else happens, and that is
    /// no error. A message of an unknown kind is discarded.
    pub fn on_business(&mut self) -> (r: BusinessAction)
        requires
            old(self).wf(),
        ensures
            final(self).wf(),
            final(self).config() == old(self).config(),
            final(self).connection() == old(self).connection(),
            old(self).backlog().len() == 0 ==> {
                &&& r is Idle
                &&& final(self).backlog() == old(self).backlog()
                &&& final(self).entries() == old(self).entries()
            },
            old(self).backlog().len() > 0 ==> {
                &&& final(self).backlog() == old(self).backlog().drop_first()
                &&& match old(self).backlog()[0] {
                    BusinessRequest::ConfigChangeNotify(notify) => {
                        let ack = ConfigChangeNotifyClientResponse {
                            request_id: Some(notify.request_id),
                            result_code: RESULT_CODE_SUCCESS,
                            error_code: 0,
                            message: None,
                        };
                        let data_id = notify.data_id@;
                        let group = notify.group@;
                        let tenant = notify.spec_tenant();
                        &&& final(self).entries() == marked_stale(
                            old(self).entries(),
                            data_id,
                            group,
                            tenant,
                        )
                        &&& if has_item(old(self).entries(), data_id, group, tenant) {
                            &&& r is Refresh
                            &&& r->Refresh_ack == ack
                            &&& r->data_id@ == data_id
                            &&& r->group@ == group
                            &&& r->tenant@ == tenant
                        } else {
                            r == BusinessAction::Acknowledge(ack)
                        }
                    },
                    BusinessRequest::Unrecognized(type_url) => {
                        &&& r == BusinessAction::Discard(type_url)
                        &&& final(self).entries() == old(self).entries()
                    },
                }
            },
    {
        match self.dispatcher.next_business() {
            None => BusinessAction::Idle,
            Some(BusinessRequest::Unrecognized(type_url)) => BusinessAction::Discard(type_url),
            Some(BusinessRequest::ConfigChangeNotify(notify)) => {
                let tenant = notify.tenant_or_default();
                let data_id = notify.data_id;
                let group = notify.group;
                let ack = ConfigChangeNotifyClientResponse::new(notify.request_id);
                let known = self.worker.notify_config_change(
                    data_id.clone(),
                    group.clone(),
                    tenant.clone(),
                );
                proof {
                    lemma_marked_stale(
                        old(self).entries(),
                        data_id@,
                        group@,
                        tenant@,
                    );
                }
                if known {
                    BusinessAction::Refresh { ack, data_id, group, tenant }
                } else {
                    BusinessAction::Acknowledge(ack)
                }
            },
        }
    }

    /// Takes the answer to the query for the item `(data_id, group,
    /// tenant)` that followed a change notification.
    ///
    /// A successful answer with content is written into the entry of the
    /// item, which is then no longer stale, and every listener of the
    /// entry is to be invoked once with the refreshed snapshot, in the
    /// order of registration. Any other answer, and an answer for an item
    /// without an entry, changes nothing and tells nobody.
    pub fn on_config_refreshed(
        &mut self,
        data_id: String,
        group: String,
        tenant: String,
        response: ConfigQueryServerResponse,
    ) -> (r: Vec<Notification>)
        requires
            old(self).wf(),
        ensures
            final(self).wf(),
            final(self).config() == old(self).config(),
            final(self).connection() == old(self).connection(),
            final(self).backlog() == old(self).backlog(),
            match update_of(response) {
                Some(update) => {
                    &&& final(self).entries() == refreshed(
                        old(self).entries(),
                        data_id@,
                        group@,
                        tenant@,
                        update,
                    )
                    &&& notification_views(r@) == notifications_for(
                        final(self).entries(),
                        data_id@,
                        group@,
                        tenant@,
                    )
                },
                None => {
                    &&& final(self).entries() == old(self).entries()
                    &&& r@ == Seq::<Notification>::empty()
                },
            },
    {
        if response.result_code != RESULT_CODE_SUCCESS {
            return Vec::new();
        }
        match response.content {
            None => Vec::new(),
            Some(content) => {
                let content_type = match response.content_type {
                    Some(content_type) => content_type,
                    None => String::from_str(DEFAULT_CONTENT_TYPE),
                };
                let md5 = match response.md5 {
                    Some(md5) => md5,
                    None => String::new(),
                };
                proof {
                    lemma_refreshed(
                        old(self).entries(),
                        data_id@,
                        group@,
                        tenant@,
                        update_of(response).unwrap(),
                    );
                }
                self.worker.refresh_config(
                    data_id,
                    group,
                    tenant,
                    content,
                    content_type,
                    md5,
                    response.encrypted_data_key,
                    response.last_modified,
                )
            },
        }
    }

    /// Reports the response under `request_id`. The request that waited
    /// for it, if there is one, leaves the requests in flight and is
    /// returned; a response that nothing waits for changes nothing.
    pub fn on_response(&mut self, request_id: &String) -> (r: Option<PendingRequest>)
        requires
            old(self).wf(),
        ensures
            final(self).wf(),
            final(self).config() == old(self).config(),
            final(self).entries() == old(self).entries(),
            final(self).backlog() == old(self).backlog(),
            final(self).connection().state() == old(self).connection().state(),
            final(self).connection().is_closed() == old(self).connection().is_closed(),
            r.is_some() == is_pending(old(self).connection().pending(), request_id@),
            !is_pending(final(self).connection().pending(), request_id@),
            r.is_some() ==> {
                let at = pending_position(old(self).connection().pending(), request_id@);
                &&& r.unwrap() == old(self).connection().pending()[at]
                &&& final(self).connection().pending() == old(self).connection().pending().remove(
                    at,
                )
            },
            r.is_none() ==> final(self).connection().pending() == old(self).connection().pending(),
    {
        self.connection.on_response(request_id)
    }

    /// Fails the requests that have timed out at `now_ms` with `Timeout`,
    /// in the order in which they were sent. The others stay in flight.
    pub fn sweep(&mut self, now_ms: u64) -> (r: Vec<Failure>)
        requires
            old(self).wf(),
        ensures
            final(self).wf(),
            final(self).config() == old(self).config(),
            final(self).entries() == old(self).entries(),
            final(self).backlog() == old(self).backlog(),
            final(self).connection().state() == old(self).connection().state(),
            final(self).connection().is_closed() == old(self).connection().is_closed(),
            final(self).connection().pending() == unexpired(
                old(self).connection().pending(),
                now_ms,
            ),
            fails_all(r@, expired(old(self).connection().pending(), now_ms), ErrorView::Timeout),
    {
        self.connection.sweep(now_ms)
    }

    /// Shuts the service down for good. The state becomes
    /// `Disconnected`, every request in flight fails with `Cancelled`,
    /// and from now on nothing connects and nothing is sent.
    pub fn shutdown(&mut self) -> (r: Vec<Failure>)
        requires
            old(self).wf(),
        ensures
            final(self).wf(),
            final(self).config() == old(self).config(),
            final(self).entries() == old(self).entries(),
            final(self).backlog() == old(self).backlog(),
            final(self).connection().is_closed(),
            final(self).connection().state() == ConnectionState::Disconnected,
            final(self).connection().pending() == Seq::<PendingRequest>::empty(),
            fails_all(r@, old(self).connection().pending(), ErrorView::Cancelled),
    {
        self.connection.shutdown()
    }
}

/// Why a listener cannot be registered on `connection`, if it cannot:
/// after a shutdown, or while no connection is established.
pub open spec fn listen_refusal(connection: Connection) -> Option<ErrorView> {
    if connection.is_closed() {
        Some(ErrorView::Cancelled)
    } else if connection.state() != ConnectionState::Connected {
        Some(ErrorView::TransportError(MESSAGE_NOT_CONNECTED@))
    } else {
        None
    }
}

} // verus!

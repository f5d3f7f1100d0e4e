//! The state of the link to the server.
//!
//! The connection is a state machine. The caller owns the channel: it
//! reports what happened on it and carries out what the connection
//! returns. Requests that wait for a response are kept in a
//! [`PendingRequestTable`] and leave it exactly once: with their response,
//! or as a [`Failure`].

use crate::api::client_config::ClientConfig;
use crate::api::error::{Error, ErrorView};
use crate::common::remote::pending::{
    expired, is_expired, is_pending, pending_position, unexpired, unique_ids, PendingRequest,
    PendingRequestTable,
};
use crate::common::remote::request::client_request::ConnectionSetupClientRequest;
use crate::common::remote::request::CLIENT_VERSION;
use vstd::prelude::*;
use vstd::string::*;

verus! {

/// What a request is told that is sent while no connection is established.
pub const MESSAGE_NOT_CONNECTED: &'static str = "connection is not established";

/// What the requests in flight are told when the connection drops.
pub const MESSAGE_CONNECTION_LOST: &'static str = "connection was lost";

/// What a request is told whose request id is in flight already.
pub const MESSAGE_DUPLICATE_REQUEST_ID: &'static str = "request id is already in flight";

/// Where the connection stands.
#[derive(Clone, Copy, Debug, PartialEq, Eq, Structural)]
pub enum ConnectionState {
    /// No channel is open.
    Disconnected,
    /// A channel is being opened; at most one attempt runs at a time.
    Connecting,
    /// The channel is open and the setup message was sent.
    Connected,
}

/// A request that left the table without a response, and why.
#[derive(Debug, PartialEq, Eq)]
pub struct Failure {
    pub request: PendingRequest,
    pub error: Error,
}

/// Whether `failures` fails exactly `requests`, in their order, each with
/// `error`.
pub open spec fn fails_all(
    failures: Seq<Failure>,
    requests: Seq<PendingRequest>,
    error: ErrorView,
) -> bool {
    &&& failures.len() == requests.len()
    &&& forall|i: int|
        0 <= i < failures.len() ==> (#[trigger] failures[i]).request == requests[i]
            && failures[i].error@ == error
}

/// Fails every one of `requests` with `error`.
fn fail_all(requests: Vec<PendingRequest>, error: Error) -> (r: Vec<Failure>)
    ensures
        fails_all(r@, requests@, error@),
{
    let mut out: Vec<Failure> = Vec::new();
    let n = requests.len();
    let mut i: usize = 0;
    while i < n
        invariant
            n == requests@.len(),
            i <= n,
            out@.len() == i,
            forall|j: int|
                0 <= j < i ==> (#[trigger] out@[j]).request == requests@[j] && out@[j].error@
                    == error@,
        decreases n - i,
    {
        out.push(Failure { request: requests[i].clone(), error: error.clone() });
        i = i + 1;
    }
    out
}

/// The link to the server: its state and the requests in flight.
#[derive(Debug)]
pub struct Connection {
    client_config: ClientConfig,
    state: ConnectionState,
    /// Set by [`Connection::shutdown`], never cleared.
    closed: bool,
    pending: PendingRequestTable,
}

impl Connection {
    /// Where the connection stands.
    pub closed spec fn state(&self) -> ConnectionState {
        self.state
    }

    /// Whether the connection was shut down.
    pub closed spec fn is_closed(&self) -> bool {
        self.closed
    }

    /// The requests in flight, in the order in which they were sent.
    pub closed spec fn pending(&self) -> Seq<PendingRequest> {
        self.pending@
    }

    /// The options that the connection was made with.
    pub closed spec fn config(&self) -> ClientConfig {
        self.client_config
    }

    /// The connection is well formed: the request ids in flight are
    /// unique, and requests are in flight only while it is connected.
    pub open spec fn wf(&self) -> bool {
        &&& unique_ids(self.pending())
        &&& self.state() != ConnectionState::Connected ==> self.pending().len() == 0
        &&& self.is_closed() ==> self.state() == ConnectionState::Disconnected
    }

    /// A connection that was not opened yet.
    pub fn new(client_config: ClientConfig) -> (r: Self)
        ensures
            r.wf(),
            r.state() == ConnectionState::Disconnected,
            !r.is_closed(),
            r.pending() == Seq::<PendingRequest>::empty(),
            r.config() == client_config,
    {
        Connection {
            client_config,
            state: ConnectionState::Disconnected,
            closed: false,
            pending: PendingRequestTable::new(),
        }
    }

    /// Where the connection stands.
    pub fn get_state(&self) -> (r: ConnectionState)
        ensures
            r == self.state(),
    {
        self.state
    }

    /// Whether requests can be sent.
    pub fn is_connected(&self) -> (r: bool)
        ensures
            r == (self.state() == ConnectionState::Connected),
    {
        self.state == ConnectionState::Connected
    }

    /// Whether the connection was shut down.
    pub fn is_shut_down(&self) -> (r: bool)
        ensures
            r == self.is_closed(),
    {
        self.closed
    }

    /// The number of requests in flight.
    pub fn pending_len(&self) -> (r: usize)
        ensures
            r == self.pending().len(),
    {
        self.pending.len()
    }

    /// Starts to connect. From `Disconnected`, unless the connection was
    /// shut down, the state becomes `Connecting` and the setup message to
    /// send on the new channel is returned; it carries the tenant and the
    /// labels of the options. In any other state nothing changes and
    /// nothing is returned: one attempt runs at a time.
    pub fn connect(&mut self, request_id: String) -> (r: Option<ConnectionSetupClientRequest>)
        requires
            old(self).wf(),
        ensures
            final(self).wf(),
            final(self).config() == old(self).config(),
            final(self).pending() == old(self).pending(),
            final(self).is_closed() == old(self).is_closed(),
            r.is_some() == (old(self).state() == ConnectionState::Disconnected && !old(
                self,
            ).is_closed()),
            r.is_some() ==> {
                &&& final(self).state() == ConnectionState::Connecting
                &&& r.unwrap().request_id == request_id
                &&& r.unwrap().headers@ == Map::<String, String>::empty()
                &&& r.unwrap().client_version@ == CLIENT_VERSION@
                &&& r.unwrap().tenant@ == old(self).config().namespace@
                &&& r.unwrap().labels@ == old(self).config().labels@
            },
            r.is_none() ==> final(self).state() == old(self).state(),
    {
        if self.closed || self.state != ConnectionState::Disconnected {
            return None;
        }
        self.state = ConnectionState::Connecting;
        Some(
            ConnectionSetupClientRequest::new(
                request_id,
                self.client_config.namespace.clone(),
                self.client_config.labels.clone(),
            ),
        )
    }

    /// Reports that the channel is open and the setup message was sent.
    /// From `Connecting` the state becomes `Connected`; in any other state
    /// nothing changes. Says whether the connection is now newly
    /// connected: then the listen registrations are to be issued again.
    pub fn established(&mut self) -> (r: bool)
        requires
            old(self).wf(),
        ensures
            final(self).wf(),
            final(self).config() == old(self).config(),
            final(self).pending() == old(self).pending(),
            final(self).is_closed() == old(self).is_closed(),
            r == (old(self).state() == ConnectionState::Connecting),
            r ==> final(self).state() == ConnectionState::Connected,
            !r ==> final(self).state() == old(self).state(),
    {
        if self.state == ConnectionState::Connecting {
            self.state = ConnectionState::Connected;
            true
        } else {
            false
        }
    }

    /// Reports that the channel failed or that the server demanded a
    /// reset. The state becomes `Disconnected`, and every request in
    /// flight fails with a transport error.
    pub fn lost(&mut self) -> (r: Vec<Failure>)
        requires
            old(self).wf(),
        ensures
            final(self).wf(),
            final(self).config() == old(self).config(),
            final(self).is_closed() == old(self).is_closed(),
            final(self).state() == ConnectionState::Disconnected,
            final(self).pending() == Seq::<PendingRequest>::empty(),
            fails_all(
                r@,
                old(self).pending(),
                ErrorView::TransportError(MESSAGE_CONNECTION_LOST@),
            ),
    {
        self.state = ConnectionState::Disconnected;
        let requests = self.pending.drain();
        fail_all(requests, Error::TransportError(String::from_str(MESSAGE_CONNECTION_LOST)))
    }

    /// Enters a request that is about to be sent and waits for a response
    /// until `timeout_ms` after `now_ms`.
    ///
    /// Fails, and changes nothing, after a shutdown (`Cancelled`), while
    /// the connection is not established (`TransportError`: requests fail
    /// fast during a reconnect), and for a request id that is in flight
    /// already (`ProtocolError`), in this order.
    pub fn send_request(
        &mut self,
        request_id: String,
        handle: u64,
        now_ms: u64,
        timeout_ms: u64,
    ) -> (r: Result<(), Error>)
        requires
            old(self).wf(),
        ensures
            final(self).wf(),
            final(self).config() == old(self).config(),
            final(self).state() == old(self).state(),
            final(self).is_closed() == old(self).is_closed(),
            match r {
                Ok(_) => send_refusal(*old(self), request_id@).is_none(),
                Err(e) => send_refusal(*old(self), request_id@) == Some(e@),
            },
            r.is_ok() ==> final(self).pending() == old(self).pending().push(
                PendingRequest { request_id, handle, deadline_ms: deadline(now_ms, timeout_ms) },
            ),
            r.is_err() ==> final(self).pending() == old(self).pending(),
    {
        if self.closed {
            return Err(Error::Cancelled);
        }
        if self.state != ConnectionState::Connected {
            return Err(Error::TransportError(String::from_str(MESSAGE_NOT_CONNECTED)));
        }
        let deadline_ms = if timeout_ms > u64::MAX - now_ms {
            u64::MAX
        } else {
            now_ms + timeout_ms
        };
        if self.pending.register(request_id, handle, deadline_ms) {
            Ok(())
        } else {
            Err(Error::ProtocolError(String::from_str(MESSAGE_DUPLICATE_REQUEST_ID)))
        }
    }

    /// Reports the response under `request_id`. The request that waited
    /// for it, if there is one, leaves the table and is returned; a
    /// response that nothing waits for changes nothing.
    pub fn on_response(&mut self, request_id: &String) -> (r: Option<PendingRequest>)
        requires
            old(self).wf(),
        ensures
            final(self).wf(),
            final(self).config() == old(self).config(),
            final(self).state() == old(self).state(),
            final(self).is_closed() == old(self).is_closed(),
            r.is_some() == is_pending(old(self).pending(), request_id@),
            !is_pending(final(self).pending(), request_id@),
            r.is_some() ==> {
                let at = pending_position(old(self).pending(), request_id@);
                &&& r.unwrap() == old(self).pending()[at]
                &&& final(self).pending() == old(self).pending().remove(at)
            },
            r.is_none() ==> final(self).pending() == old(self).pending(),
    {
        self.pending.resolve(request_id)
    }

    /// Fails the requests that have timed out at `now_ms` with `Timeout`,
    /// in the order in which they were sent. The others stay in flight.
    pub fn sweep(&mut self, now_ms: u64) -> (r: Vec<Failure>)
        requires
            old(self).wf(),
        ensures
            final(self).wf(),
            final(self).config() == old(self).config(),
            final(self).state() == old(self).state(),
            final(self).is_closed() == old(self).is_closed(),
            final(self).pending() == unexpired(old(self).pending(), now_ms),
            fails_all(r@, expired(old(self).pending(), now_ms), ErrorView::Timeout),
    {
        proof {
            old(self).pending().lemma_filter_len(
                |request: PendingRequest|
                    !is_expired(request, now_ms),
            );
        }
        let requests = self.pending.sweep_expired(now_ms);
        fail_all(requests, Error::Timeout)
    }

    /// Shuts the connection down for good. The state becomes
    /// `Disconnected`, every request in flight fails with `Cancelled`,
    /// and from now on nothing connects and nothing is sent.
    pub fn shutdown(&mut self) -> (r: Vec<Failure>)
        requires
            old(self).wf(),
        ensures
            final(self).wf(),
            final(self).config() == old(self).config(),
            final(self).is_closed(),
            final(self).state() == ConnectionState::Disconnected,
            final(self).pending() == Seq::<PendingRequest>::empty(),
            fails_all(r@, old(self).pending(), ErrorView::Cancelled),
    {
        self.state = ConnectionState::Disconnected;
        self.closed = true;
        let requests = self.pending.drain();
        fail_all(requests, Error::Cancelled)
    }
}

/// The time from which on a request counts as timed out that was sent at
/// `now_ms` with `timeout_ms`: their sum, or the largest time if the sum
/// is beyond it.
pub open spec fn deadline(now_ms: u64, timeout_ms: u64) -> u64 {
    if now_ms + timeout_ms > u64::MAX {
        u64::MAX
    } else {
        (now_ms + timeout_ms) as u64
    }
}

/// Why a request under `request_id` cannot be sent on `connection`, if
/// it cannot: after a shutdown, while no connection is established, or
/// under a request id that is in flight.
pub open spec fn send_refusal(connection: Connection, request_id: Seq<char>) -> Option<ErrorView> {
    if connection.is_closed() {
        Some(ErrorView::Cancelled)
    } else if connection.state() != ConnectionState::Connected {
        Some(ErrorView::TransportError(MESSAGE_NOT_CONNECTED@))
    } else if is_pending(connection.pending(), request_id) {
        Some(ErrorView::ProtocolError(MESSAGE_DUPLICATE_REQUEST_ID@))
    } else {
        None
    }
}

} // verus!

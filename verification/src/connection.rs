//! The connection multiplexer: request/response correlation over one
//! shared duplex link.
//!
//! A [`GameConnection`] owns the outbound-write capability and the
//! shutdown signal (present exactly while connected), the table of
//! pending requests keyed by minted correlation identifier, and the
//! counter that mints them. The surrounding process performs the
//! socket I/O and drives these decision functions: it opens the
//! stream and hands in the capabilities, sends the frames that
//! [`GameConnection::start_request`] builds, feeds every inbound
//! message to [`GameConnection::route_inbound`], and reports how the
//! wait for a response ended to [`GameConnection::finish_request`].

use vstd::prelude::*;

use std::collections::HashMap;

use crate::errors::ConnectionError;
use crate::json::JsonValue;
use crate::json::json_bytes;
use crate::json::to_json;
use crate::wire::is_envelope;
use crate::wire::lemma_msg_id_injective;
use crate::wire::make_envelope;
use crate::wire::msg_id_bytes;
use crate::wire::parse_msg_id;
use crate::wire::spec_inbound_id;
use crate::channels::oneshot_pair;
use crate::channels::oneshot_send;

verus! {

broadcast use vstd::std_specs::hash::group_hash_axioms;

/// Everything minted for one outbound request: the correlation
/// identifier, the serialized envelope to put on the wire, and the
/// receiver on which the matching response will arrive.
pub struct SendStart {
    /// The minted correlation identifier.
    pub id: u64,
    /// The serialized request envelope, ready for the wire.
    pub frame: Vec<u8>,
    /// Where the matching response will be delivered.
    pub rx: tokio::sync::oneshot::Receiver<JsonValue>,
    /// The envelope value itself, kept for reasoning.
    pub env: Ghost<JsonValue>,
}

/// How the wait for a response ended.
pub enum AwaitOutcome {
    /// The matching response arrived.
    Responded(JsonValue),
    /// The response channel closed before any response arrived.
    Closed,
    /// The timeout window elapsed with no response.
    TimedOut,
}

/// What became of one inbound message.
pub enum RouteOutcome {
    /// The message carried the identifier of a pending request: that
    /// request was removed from the table and the full message was
    /// handed to its completion slot.
    Resolved {
        /// The identifier that matched.
        id: u64,
        /// Whether the completion slot still had a listener.
        delivered: bool,
        /// The slot the message was handed to, for reasoning.
        slot: Ghost<tokio::sync::oneshot::Sender<JsonValue>>,
        /// The message that was delivered, for reasoning.
        value: Ghost<JsonValue>,
    },
    /// The message matched no pending request and is a push
    /// notification, returned unchanged.
    Notification(JsonValue),
}

/// One client side of the shared duplex link.
pub struct GameConnection {
    write_tx: Option<tokio::sync::mpsc::Sender<Vec<u8>>>,
    shutdown_tx: Option<tokio::sync::oneshot::Sender<()>>,
    pending: HashMap<u64, tokio::sync::oneshot::Sender<JsonValue>>,
    next_id: u64,
    timeout_secs: u64,
}

impl GameConnection {
    /// The outbound-write capability, present iff connected.
    pub closed spec fn write_capability(self) -> Option<tokio::sync::mpsc::Sender<Vec<u8>>> {
        self.write_tx
    }

    /// The shutdown signal for the background reader, present iff
    /// connected.
    pub closed spec fn shutdown_signal(self) -> Option<tokio::sync::oneshot::Sender<()>> {
        self.shutdown_tx
    }

    /// The pending-request table: minted identifier to completion
    /// slot.
    pub closed spec fn pending_map(self) -> Map<u64, tokio::sync::oneshot::Sender<JsonValue>> {
        self.pending@
    }

    /// The counter the next identifier will be minted from.
    pub closed spec fn counter(self) -> u64 {
        self.next_id
    }

    /// The configured response timeout, in seconds.
    pub closed spec fn timeout_window(self) -> u64 {
        self.timeout_secs
    }

    /// Connected means the write capability is present.
    pub open spec fn connected(self) -> bool {
        self.write_capability() is Some
    }

    /// Well-formed: the write capability and the shutdown signal are
    /// both present or both absent, the counter starts at one, and
    /// every pending identifier was minted below the counter.
    pub open spec fn wf(self) -> bool {
        &&& self.write_capability() is Some <==> self.shutdown_signal() is Some
        &&& self.counter() >= 1
        &&& forall|k: u64| #[trigger] self.pending_map().dom().contains(k) ==> k < self.counter()
    }

    /// Creates a handle in the disconnected state with an empty
    /// pending table. `timeout_secs` fixes the response timeout
    /// window for every request on this handle.
    pub fn new(timeout_secs: u64) -> (r: GameConnection)
        ensures
            r.wf(),
            !r.connected(),
            r.pending_map() == Map::<u64, tokio::sync::oneshot::Sender<JsonValue>>::empty(),
            r.counter() == 1,
            r.timeout_window() == timeout_secs,
    {
        GameConnection {
            write_tx: None,
            shutdown_tx: None,
            pending: HashMap::new(),
            next_id: 1,
            timeout_secs,
        }
    }

    /// The counter value the next identifier would be minted from.
    pub fn counter_value(&self) -> (r: u64)
        ensures
            r == self.counter(),
    {
        self.next_id
    }

    /// True iff a connection is active.
    pub fn is_connected(&self) -> (r: bool)
        ensures
            r == self.connected(),
    {
        self.write_tx.is_some()
    }

    /// Installs the capabilities of a freshly opened stream: the
    /// sender feeding the writer task and the signal that stops the
    /// reader task. The pending table and the counter are kept, so a
    /// handle may be reconnected any number of times.
    pub fn connect(
        &mut self,
        write_tx: tokio::sync::mpsc::Sender<Vec<u8>>,
        shutdown_tx: tokio::sync::oneshot::Sender<()>,
    )
        requires
            old(self).wf(),
        ensures
            final(self).wf(),
            final(self).connected(),
            final(self).write_capability() == Some(write_tx),
            final(self).shutdown_signal() == Some(shutdown_tx),
            final(self).pending_map() == old(self).pending_map(),
            final(self).counter() == old(self).counter(),
            final(self).timeout_window() == old(self).timeout_window(),
    {
        self.write_tx = Some(write_tx);
        self.shutdown_tx = Some(shutdown_tx);
        proof {
            lemma_wf_frame(*old(self), *self);
        }
    }

    /// The outbound-write capability, for the caller that puts
    /// frames on the wire.
    pub fn writer(&self) -> (r: Option<&tokio::sync::mpsc::Sender<Vec<u8>>>)
        ensures
            match r {
                Some(w) => self.write_capability() == Some(*w),
                None => self.write_capability() is None,
            },
    {
        self.write_tx.as_ref()
    }

    /// Tears down the connection state and returns the write
    /// capability and shutdown signal for the caller to close and
    /// fire. Idempotent: on an already-disconnected handle nothing
    /// changes and both returns are `None`.
    pub fn disconnect(&mut self) -> (r: (
        Option<tokio::sync::mpsc::Sender<Vec<u8>>>,
        Option<tokio::sync::oneshot::Sender<()>>,
    ))
        requires
            old(self).wf(),
        ensures
            final(self).wf(),
            !final(self).connected(),
            r.0 == old(self).write_capability(),
            r.1 == old(self).shutdown_signal(),
            final(self).pending_map() == old(self).pending_map(),
            final(self).counter() == old(self).counter(),
            final(self).timeout_window() == old(self).timeout_window(),
            !old(self).connected() ==> *final(self) == *old(self),
    {
        let mut w: Option<tokio::sync::mpsc::Sender<Vec<u8>>> = None;
        core::mem::swap(&mut w, &mut self.write_tx);
        let mut s: Option<tokio::sync::oneshot::Sender<()>> = None;
        core::mem::swap(&mut s, &mut self.shutdown_tx);
        proof {
            lemma_wf_frame(*old(self), *self);
        }
        (w, s)
    }

    /// Opens one outbound request: fails with `NotConnected` on a
    /// disconnected handle; otherwise mints a fresh correlation
    /// identifier, registers a completion slot for it in the pending
    /// table, and returns the identifier, the serialized envelope
    /// `{"id", "action", "params"}` and the receiver for the
    /// response.
    ///
    /// The minted identifier is never one already pending, so every
    /// in-flight request on this handle has its own slot.
    pub fn start_request(&mut self, action: &[u8], params: JsonValue) -> (r: Result<
        SendStart,
        ConnectionError,
    >)
        requires
            old(self).wf(),
            old(self).counter() < u64::MAX,
        ensures
            final(self).wf(),
            final(self).write_capability() == old(self).write_capability(),
            final(self).shutdown_signal() == old(self).shutdown_signal(),
            final(self).timeout_window() == old(self).timeout_window(),
            !old(self).connected() ==> (r matches Err(ConnectionError::NotConnected)
                && *final(self) == *old(self)),
            old(self).connected() ==> (r matches Ok(st) && {
                &&& st.id == old(self).counter()
                &&& !old(self).pending_map().contains_key(st.id)
                &&& final(self).counter() == old(self).counter() + 1
                &&& exists|slot: tokio::sync::oneshot::Sender<JsonValue>|
                    final(self).pending_map() == old(self).pending_map().insert(st.id, slot)
                &&& is_envelope(st.env@, st.id, action@, params)
                &&& st.frame@ == json_bytes(st.env@)
            }),
    {
        if self.write_tx.is_none() {
            return Err(ConnectionError::NotConnected);
        }
        let id = self.next_id;
        self.next_id = id + 1;
        let (tx, rx) = oneshot_pair();
        self.pending.insert(id, tx);
        proof {
            assert(!old(self).pending_map().dom().contains(id)) by {
                if old(self).pending_map().dom().contains(id) {
                    assert(id < old(self).counter());
                }
            }
            lemma_wf_frame(*old(self), *self);
        }
        let env = make_envelope(id, action, params);
        let frame = to_json(&env);
        let ghost genv = env;
        Ok(SendStart { id, frame, rx, env: Ghost(genv) })
    }

    /// Closes one outbound request from the outcome of waiting on
    /// its receiver: a response is handed back unchanged; a closed
    /// channel reports `ChannelClosed`; a timeout removes the stale
    /// pending entry — so a late response can no longer resolve it —
    /// and reports `Timeout` with the configured window.
    pub fn finish_request(&mut self, id: u64, outcome: AwaitOutcome) -> (r: Result<
        JsonValue,
        ConnectionError,
    >)
        requires
            old(self).wf(),
        ensures
            final(self).wf(),
            final(self).write_capability() == old(self).write_capability(),
            final(self).shutdown_signal() == old(self).shutdown_signal(),
            final(self).counter() == old(self).counter(),
            final(self).timeout_window() == old(self).timeout_window(),
            match outcome {
                AwaitOutcome::Responded(v) => r == Ok::<JsonValue, ConnectionError>(v)
                    && final(self).pending_map() == old(self).pending_map(),
                AwaitOutcome::Closed => (r matches Err(ConnectionError::ChannelClosed))
                    && final(self).pending_map() == old(self).pending_map(),
                AwaitOutcome::TimedOut => (r matches Err(e)
                    && e == (ConnectionError::Timeout { secs: old(self).timeout_window() }))
                    && final(self).pending_map() == old(self).pending_map().remove(id),
            },
    {
        match outcome {
            AwaitOutcome::Responded(v) => Ok(v),
            AwaitOutcome::Closed => Err(ConnectionError::ChannelClosed),
            AwaitOutcome::TimedOut => {
                let _stale = self.pending.remove(&id);
                proof {
                    lemma_wf_frame(*old(self), *self);
                }
                Err(ConnectionError::Timeout { secs: self.timeout_secs })
            },
        }
    }

    /// Routes one inbound message, already parsed.
    ///
    /// If the message has a string-typed `"id"` field holding a
    /// minted identifier with a pending request, that entry alone is
    /// removed and the full message is delivered to its slot.
    /// Every other message — no `"id"` field, a non-identifier
    /// `"id"`, or an identifier no longer pending (for instance after
    /// its timeout) — leaves the table untouched and comes back
    /// unchanged as a notification.
    pub fn route_inbound(&mut self, v: JsonValue) -> (r: RouteOutcome)
        requires
            old(self).wf(),
        ensures
            final(self).wf(),
            final(self).write_capability() == old(self).write_capability(),
            final(self).shutdown_signal() == old(self).shutdown_signal(),
            final(self).counter() == old(self).counter(),
            final(self).timeout_window() == old(self).timeout_window(),
            match spec_inbound_id(v) {
                Some(n) => if old(self).pending_map().contains_key(n) {
                    &&& final(self).pending_map() == old(self).pending_map().remove(n)
                    &&& r matches RouteOutcome::Resolved { id, delivered, slot, value } && id == n
                        && slot@ == old(self).pending_map()[n] && value@ == v
                } else {
                    &&& final(self).pending_map() == old(self).pending_map()
                    &&& r matches RouteOutcome::Notification(w) && w == v
                },
                None => final(self).pending_map() == old(self).pending_map() && (
                r matches RouteOutcome::Notification(w) && w == v),
            },
    {
        let mut key: Vec<u8> = Vec::new();
        key.push(105);
        key.push(100);
        assert(key@ =~= crate::wire::id_key());
        let mut target: Option<u64> = None;
        match v.get_field(key.as_slice()) {
            Some(f) => match f {
                JsonValue::Text(b) => {
                    target = parse_msg_id(b.as_slice());
                    proof {
                        match target {
                            Some(n) => {
                                assert(b@ == msg_id_bytes(n));
                                let m = choose|m: u64| b@ == msg_id_bytes(m);
                                lemma_msg_id_injective(m, n);
                                assert(spec_inbound_id(v) == Some(n));
                            },
                            None => {
                                assert(forall|n: u64| b@ != msg_id_bytes(n));
                                assert(spec_inbound_id(v) is None);
                            },
                        }
                    }
                },
                _ => {
                    assert(spec_inbound_id(v) is None);
                },
            },
            None => {
                assert(spec_inbound_id(v) is None);
            },
        }
        match target {
            Some(n) => {
                match self.pending.remove(&n) {
                    Some(slot) => {
                        proof {
                            lemma_wf_frame(*old(self), *self);
                        }
                        let ghost gslot = slot;
                        let ghost gv = v;
                        let delivered = oneshot_send(slot, v);
                        RouteOutcome::Resolved { id: n, delivered, slot: Ghost(gslot), value: Ghost(gv) }
                    },
                    None => {
                        assert(self.pending@ =~= old(self).pending@);
                        proof {
                            lemma_wf_frame(*old(self), *self);
                        }
                        RouteOutcome::Notification(v)
                    },
                }
            },
            None => RouteOutcome::Notification(v),
        }
    }
}

/// Law: the identifier a well-formed handle would mint next never
/// collides with any request still pending, so every in-flight
/// request owns a distinct identifier and its own completion slot.
pub proof fn lemma_minted_ids_are_fresh(c: GameConnection)
    requires
        c.wf(),
    ensures
        !c.pending_map().contains_key(c.counter()),
{
    if c.pending_map().dom().contains(c.counter()) {
        assert(c.counter() < c.counter());
    }
}

/// Law: responses are matched to requests by identifier alone.
/// Removing the entry for one identifier — as routing its response
/// does — leaves every other pending request registered, with its own
/// completion slot unchanged: concurrent requests cannot steal each
/// other's responses.
pub proof fn lemma_correlation_isolates_other_requests(
    p: Map<u64, tokio::sync::oneshot::Sender<JsonValue>>,
    resolved: u64,
    other: u64,
)
    requires
        p.contains_key(other),
        resolved != other,
    ensures
        p.remove(resolved).contains_key(other),
        p.remove(resolved)[other] == p[other],
        !p.remove(resolved).contains_key(resolved),
{
}

/// Law: once a timeout has removed an identifier from the pending
/// table, that identifier is pending no more, so a late response
/// carrying it can no longer resolve any request.
pub proof fn lemma_timeout_forgets_request(
    p: Map<u64, tokio::sync::oneshot::Sender<JsonValue>>,
    n: u64,
)
    ensures
        !p.remove(n).contains_key(n),
{
}

/// Well-formedness carries over to a state whose pending table only
/// shrank or gained identifiers below the (non-decreasing) counter.
proof fn lemma_wf_frame(a: GameConnection, b: GameConnection)
    requires
        a.wf(),
        b.write_capability() is Some <==> b.shutdown_signal() is Some,
        b.counter() >= a.counter(),
        forall|k: u64|
            #[trigger] b.pending_map().dom().contains(k) ==> a.pending_map().dom().contains(k)
                || k < b.counter(),
    ensures
        b.wf(),
{
    assert forall|k: u64| #[trigger] b.pending_map().dom().contains(k) implies k < b.counter() by {
        if a.pending_map().dom().contains(k) {
            assert(k < a.counter());
        }
    }
}

} // verus!

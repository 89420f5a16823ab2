//! The TCP multiplexer's handle registry and decision core: one shared id
//! allocator, the listener and socket maps, and the exact reaction of every
//! consumer command (create, send, close, address) and of the background
//! loops (accept, read) on that state.
//!
//! The I/O layer owns the real OS resources (bound listeners, stream halves,
//! task handles) keyed by the same ids; it asks this state what to register,
//! what to emit and what to remove.

use std::collections::HashMap;
use vstd::prelude::*;

use crate::events::ControlEvent;

verus! {

broadcast use vstd::std_specs::hash::group_hash_axioms;

/// Failure of a consumer command.
#[derive(Clone, Copy, Debug, PartialEq, Eq, Structural)]
pub enum TcpError {
    /// The listener or socket id is not registered.
    NotFound,
    /// A write on a registered socket failed.
    IoError,
}

/// What the registry records of one live listener.
#[derive(Debug)]
pub struct ListenerEntry {
    /// The bound local IP address.
    pub address: String,
    /// The actual bound local port (what the OS chose when port 0 was
    /// requested).
    pub port: u16,
}

/// What the registry records of one live accepted socket.
#[derive(Debug)]
pub struct SocketEntry {
    /// The peer's address.
    pub remote_address: String,
    /// The peer's port.
    pub remote_port: u16,
}

/// Whether a send to `socket_id` is accepted, and the error if not.
pub open spec fn spec_check_send(sockets: Map<u32, SocketEntry>, socket_id: u32) -> Result<
    (),
    TcpError,
> {
    if sockets.contains_key(socket_id) {
        Ok(())
    } else {
        Err(TcpError::NotFound)
    }
}

/// The port a listener is registered under, if any.
pub open spec fn spec_listener_port(listeners: Map<u32, ListenerEntry>, id: u32) -> Option<u16> {
    if listeners.contains_key(id) {
        Some(listeners[id].port)
    } else {
        None
    }
}

/// What one read on a socket's read half produced.
#[derive(Debug)]
pub enum ReadOutcome {
    /// Zero bytes read: the peer performed an orderly half-close.
    Eof,
    /// Some bytes were read; the pump forwards them as a data frame and
    /// keeps looping.
    Data,
    /// The read failed with the given message.
    Failed { message: String },
}

/// Removing a socket entry preserves well-formedness.
proof fn lemma_wf_after_socket_remove(pre: TcpState, post: TcpState, id: u32)
    requires
        pre.wf(),
        post.sockets_map() == pre.sockets_map().remove(id),
        post.listeners_map() == pre.listeners_map(),
        post.next_id_val() == pre.next_id_val(),
    ensures
        post.wf(),
{
    assert forall|k: u32| #[trigger]
        post.sockets_map().contains_key(k) implies 0 < k < post.next_id_val() by {
        assert(pre.sockets_map().contains_key(k));
    }
    assert forall|k: u32| #[trigger]
        post.listeners_map().contains_key(k) implies 0 < k < post.next_id_val() by {
        assert(pre.listeners_map().contains_key(k));
    }
}

/// Removing a listener entry preserves well-formedness.
proof fn lemma_wf_after_listener_remove(pre: TcpState, post: TcpState, id: u32)
    requires
        pre.wf(),
        post.listeners_map() == pre.listeners_map().remove(id),
        post.sockets_map() == pre.sockets_map(),
        post.next_id_val() == pre.next_id_val(),
    ensures
        post.wf(),
{
    assert forall|k: u32| #[trigger]
        post.listeners_map().contains_key(k) implies 0 < k < post.next_id_val() by {
        assert(pre.listeners_map().contains_key(k));
    }
    assert forall|k: u32| #[trigger]
        post.sockets_map().contains_key(k) implies 0 < k < post.next_id_val() by {
        assert(pre.sockets_map().contains_key(k));
    }
}

/// The multiplexer's shared state: the two id-keyed registry maps and the
/// counter both handle kinds draw their ids from.
pub struct TcpState {
    listeners: HashMap<u32, ListenerEntry>,
    sockets: HashMap<u32, SocketEntry>,
    next_id: u32,
}

impl TcpState {
    /// The live listeners, as a map from id to entry.
    pub closed spec fn listeners_map(&self) -> Map<u32, ListenerEntry> {
        self.listeners@
    }

    /// The live sockets, as a map from id to entry.
    pub closed spec fn sockets_map(&self) -> Map<u32, SocketEntry> {
        self.sockets@
    }

    /// The id the allocator will hand out next.
    pub closed spec fn next_id_val(&self) -> u32 {
        self.next_id
    }

    /// Well-formed: ids start at 1, and every registered id lies below the
    /// counter, so an id is never reused while its handle is registered.
    pub open spec fn wf(&self) -> bool {
        &&& 1 <= self.next_id_val()
        &&& forall|id: u32|
            #[trigger] self.listeners_map().contains_key(id) ==> 0 < id < self.next_id_val()
        &&& forall|id: u32|
            #[trigger] self.sockets_map().contains_key(id) ==> 0 < id < self.next_id_val()
    }

    /// Fresh state: no listeners, no sockets, ids start at 1.
    pub fn new() -> (s: Self)
        ensures
            s.wf(),
            s.listeners_map() == Map::<u32, ListenerEntry>::empty(),
            s.sockets_map() == Map::<u32, SocketEntry>::empty(),
            s.next_id_val() == 1,
    {
        TcpState { listeners: HashMap::new(), sockets: HashMap::new(), next_id: 1 }
    }

    /// Whether the id allocator can still hand out a fresh id.
    pub fn can_allocate(&self) -> (r: bool)
        ensures
            r == (self.next_id_val() < u32::MAX),
    {
        self.next_id < u32::MAX
    }

    /// Allocate the next id: strictly increasing, non-zero, and never an id
    /// that a live listener or socket holds.
    pub fn next_id(&mut self) -> (id: u32)
        requires
            old(self).wf(),
            old(self).next_id_val() < u32::MAX,
        ensures
            final(self).wf(),
            id == old(self).next_id_val(),
            0 < id,
            final(self).next_id_val() == id + 1,
            final(self).listeners_map() == old(self).listeners_map(),
            final(self).sockets_map() == old(self).sockets_map(),
            !final(self).listeners_map().contains_key(id),
            !final(self).sockets_map().contains_key(id),
    {
        let id = self.next_id;
        self.next_id = self.next_id + 1;
        proof {
            assert forall|k: u32| #[trigger]
                self.listeners_map().contains_key(k) implies 0 < k < self.next_id_val() by {
                assert(old(self).listeners_map().contains_key(k));
            }
            assert forall|k: u32| #[trigger]
                self.sockets_map().contains_key(k) implies 0 < k < self.next_id_val() by {
                assert(old(self).sockets_map().contains_key(k));
            }
        }
        id
    }

    /// Register a newly bound listener under a fresh id and produce the
    /// `listening` event that reports the actual bound port.
    pub fn create_listener(&mut self, address: String, port: u16) -> (r: (u32, ControlEvent))
        requires
            old(self).wf(),
            old(self).next_id_val() < u32::MAX,
        ensures
            final(self).wf(),
            r.0 == old(self).next_id_val(),
            0 < r.0,
            !old(self).listeners_map().contains_key(r.0),
            !old(self).sockets_map().contains_key(r.0),
            final(self).listeners_map() == old(self).listeners_map().insert(
                r.0,
                (ListenerEntry { address, port }),
            ),
            final(self).sockets_map() == old(self).sockets_map(),
            final(self).next_id_val() == r.0 + 1,
            r.1 == (ControlEvent::Listening { listener_id: r.0, port }),
    {
        let id = self.next_id();
        self.listeners.insert(id, ListenerEntry { address, port });
        (id, ControlEvent::Listening { listener_id: id, port })
    }

    /// Register a connection just accepted by listener `listener_id` under a
    /// fresh socket id (drawn from the same counter) and produce the
    /// `accept` event.
    pub fn accept_connection(
        &mut self,
        listener_id: u32,
        remote_address: String,
        remote_port: u16,
    ) -> (r: (u32, ControlEvent))
        requires
            old(self).wf(),
            old(self).next_id_val() < u32::MAX,
        ensures
            final(self).wf(),
            r.0 == old(self).next_id_val(),
            0 < r.0,
            !old(self).sockets_map().contains_key(r.0),
            !old(self).listeners_map().contains_key(r.0),
            final(self).sockets_map() == old(self).sockets_map().insert(
                r.0,
                (SocketEntry { remote_address, remote_port }),
            ),
            final(self).listeners_map() == old(self).listeners_map(),
            final(self).next_id_val() == r.0 + 1,
            r.1 == (ControlEvent::Accept {
                listener_id,
                socket_id: r.0,
                remote_address,
                remote_port,
            }),
    {
        let id = self.next_id();
        let event = ControlEvent::Accept {
            listener_id,
            socket_id: id,
            remote_address: remote_address.clone(),
            remote_port,
        };
        self.sockets.insert(id, SocketEntry { remote_address, remote_port });
        (id, event)
    }

    /// The connection pump's reaction to one read outcome: which control
    /// events to emit, and whether the socket leaves the registry. On EOF or
    /// failure the pump removes its own socket handle unconditionally; on
    /// data it keeps everything and the caller forwards the bytes as a data
    /// frame.
    pub fn socket_read(&mut self, socket_id: u32, outcome: ReadOutcome) -> (evs: Vec<ControlEvent>)
        requires
            old(self).wf(),
        ensures
            final(self).wf(),
            final(self).listeners_map() == old(self).listeners_map(),
            final(self).next_id_val() == old(self).next_id_val(),
            match outcome {
                ReadOutcome::Eof => {
                    &&& final(self).sockets_map() == old(self).sockets_map().remove(socket_id)
                    &&& evs@ =~= seq![(ControlEvent::Close { socket_id, had_error: false })]
                },
                ReadOutcome::Data => {
                    &&& final(self).sockets_map() == old(self).sockets_map()
                    &&& evs@ =~= Seq::<ControlEvent>::empty()
                },
                ReadOutcome::Failed { message } => {
                    &&& final(self).sockets_map() == old(self).sockets_map().remove(socket_id)
                    &&& evs@ =~= seq![
                        (ControlEvent::Error { socket_id, message }),
                        (ControlEvent::Close { socket_id, had_error: true }),
                    ]
                },
            },
    {
        match outcome {
            ReadOutcome::Eof => {
                self.sockets.remove(&socket_id);
                proof {
                    lemma_wf_after_socket_remove(*old(self), *self, socket_id);
                }
                let mut evs: Vec<ControlEvent> = Vec::new();
                evs.push(ControlEvent::Close { socket_id, had_error: false });
                evs
            },
            ReadOutcome::Data => Vec::new(),
            ReadOutcome::Failed { message } => {
                self.sockets.remove(&socket_id);
                proof {
                    lemma_wf_after_socket_remove(*old(self), *self, socket_id);
                }
                let mut evs: Vec<ControlEvent> = Vec::new();
                evs.push(ControlEvent::Error { socket_id, message });
                evs.push(ControlEvent::Close { socket_id, had_error: true });
                evs
            },
        }
    }

    /// The write path's lookup: a send is accepted exactly when the socket
    /// is registered; an unknown (or already removed) id fails with
    /// `NotFound`.
    pub fn check_send(&self, socket_id: u32) -> (r: Result<(), TcpError>)
        ensures
            r == spec_check_send(self.sockets_map(), socket_id),
    {
        if self.sockets.contains_key(&socket_id) {
            Ok(())
        } else {
            Err(TcpError::NotFound)
        }
    }

    /// Close a socket: remove its entry if present. Always succeeds; closing
    /// an unknown or already-closed id is a no-op, matching the pump's
    /// self-cleanup race.
    pub fn close_socket(&mut self, socket_id: u32) -> (was_open: bool)
        requires
            old(self).wf(),
        ensures
            final(self).wf(),
            final(self).sockets_map() == old(self).sockets_map().remove(socket_id),
            final(self).listeners_map() == old(self).listeners_map(),
            final(self).next_id_val() == old(self).next_id_val(),
            was_open == old(self).sockets_map().contains_key(socket_id),
    {
        let removed = self.sockets.remove(&socket_id);
        proof {
            lemma_wf_after_socket_remove(*old(self), *self, socket_id);
        }
        removed.is_some()
    }

    /// Close a listener: remove its entry if present, touching no sockets it
    /// previously accepted. Always succeeds; closing an unknown or
    /// already-closed id is a no-op.
    pub fn close_listener(&mut self, listener_id: u32) -> (was_open: bool)
        requires
            old(self).wf(),
        ensures
            final(self).wf(),
            final(self).listeners_map() == old(self).listeners_map().remove(listener_id),
            final(self).sockets_map() == old(self).sockets_map(),
            final(self).next_id_val() == old(self).next_id_val(),
            was_open == old(self).listeners_map().contains_key(listener_id),
    {
        let removed = self.listeners.remove(&listener_id);
        proof {
            lemma_wf_after_listener_remove(*old(self), *self, listener_id);
        }
        removed.is_some()
    }

    /// The bound local address of a listener; `NotFound` if the id is not
    /// registered.
    pub fn listener_address(&self, listener_id: u32) -> (r: Result<(String, u16), TcpError>)
        ensures
            match r {
                Ok(ap) => {
                    &&& self.listeners_map().contains_key(listener_id)
                    &&& ap.0@ == self.listeners_map()[listener_id].address@
                    &&& ap.1 == self.listeners_map()[listener_id].port
                    &&& spec_listener_port(self.listeners_map(), listener_id) == Some(ap.1)
                },
                Err(e) => {
                    &&& !self.listeners_map().contains_key(listener_id)
                    &&& e == TcpError::NotFound
                },
            },
    {
        match self.listeners.get(&listener_id) {
            Some(entry) => Ok((entry.address.clone(), entry.port)),
            None => Err(TcpError::NotFound),
        }
    }
}

/// Law: the `listening` event of a freshly registered listener carries
/// exactly the port that `listener_address` then reports. When the bound
/// port is non-zero — which the OS guarantees for every successfully bound
/// listener, in particular one requested with port 0 — the reported port is
/// that same non-zero port.
pub proof fn lemma_listening_reports_bound_port(
    listeners: Map<u32, ListenerEntry>,
    id: u32,
    address: String,
    port: u16,
)
    requires
        port != 0,
    ensures
        spec_listener_port(listeners.insert(id, (ListenerEntry { address, port })), id) == Some(
            port,
        ),
        spec_listener_port(listeners.insert(id, (ListenerEntry { address, port })), id) != Some(
            0u16,
        ),
{
}

/// Law: closing an unknown or already-closed id (listener or socket) always
/// succeeds as a no-op: the maps are unchanged, and a close right after a
/// close of the same id changes nothing more.
pub proof fn lemma_close_idempotent(
    sockets: Map<u32, SocketEntry>,
    listeners: Map<u32, ListenerEntry>,
    id: u32,
)
    ensures
        !sockets.contains_key(id) ==> sockets.remove(id) == sockets,
        !listeners.contains_key(id) ==> listeners.remove(id) == listeners,
        sockets.remove(id).remove(id) == sockets.remove(id),
        listeners.remove(id).remove(id) == listeners.remove(id),
{
    if !sockets.contains_key(id) {
        assert(sockets.remove(id) =~= sockets);
    }
    if !listeners.contains_key(id) {
        assert(listeners.remove(id) =~= listeners);
    }
    assert(sockets.remove(id).remove(id) =~= sockets.remove(id));
    assert(listeners.remove(id).remove(id) =~= listeners.remove(id));
}

/// Law: once a socket's entry has been removed — by the pump's self-cleanup
/// that accompanies every `close` event, or by an explicit close — a
/// subsequent send to that id fails with `NotFound`.
pub proof fn lemma_send_after_close_not_found(sockets: Map<u32, SocketEntry>, socket_id: u32)
    ensures
        spec_check_send(sockets.remove(socket_id), socket_id) == Err::<(), TcpError>(
            TcpError::NotFound,
        ),
{
}

/// Law: sends on distinct sockets are independent at the registry: whether a
/// send to `a` is accepted never depends on another socket `b` being
/// registered, removed, or replaced. (Exclusive access to each socket's
/// write sink — no byte interleaving within a payload — is the per-socket
/// lock of the I/O layer, which never spans two sockets.)
pub proof fn lemma_send_independent_sockets(
    sockets: Map<u32, SocketEntry>,
    a: u32,
    b: u32,
    e: SocketEntry,
)
    requires
        a != b,
    ensures
        spec_check_send(sockets.remove(b), a) == spec_check_send(sockets, a),
        spec_check_send(sockets.insert(b, e), a) == spec_check_send(sockets, a),
{
}

/// Law: closing a listener touches no sockets: every socket registered
/// before the close keeps its entry, stays sendable, and can still be closed
/// independently.
pub proof fn lemma_close_listener_keeps_sockets(pre: TcpState, post: TcpState, listener_id: u32)
    requires
        post.listeners_map() == pre.listeners_map().remove(listener_id),
        post.sockets_map() == pre.sockets_map(),
    ensures
        forall|sid: u32| #[trigger]
            pre.sockets_map().contains_key(sid) ==> post.sockets_map()[sid]
                == pre.sockets_map()[sid],
        forall|sid: u32|
            spec_check_send(post.sockets_map(), sid) == #[trigger] spec_check_send(
                pre.sockets_map(),
                sid,
            ),
{
}

} // verus!

//! The forwarding abstraction: the capability boundary behind which a
//! pluggable strategy creates real outbound connections.
//!
//! Implementations live with the surrounding process — the required direct
//! strategy opens one real transport connection per request and relays bytes
//! unbuffered — and connecting suspends only the requesting task. The library
//! consumes nothing of a strategy but the plain outcome of each request, and
//! [`request_session`] is the verified step that turns that outcome into the
//! socket's next state.

use vstd::prelude::*;
use crate::driver::Endpoint;
use crate::driver::ForwardingError;
use crate::driver::ProxySession;
use crate::driver::SessionKind;
use crate::driver::SocketPhase;
use crate::driver::SocketSet;
use crate::driver::VirtualSocket;

verus! {

/// The byte-stream capability of one forwarded connection. Reading and
/// writing are the process's real transport I/O; the implementation reports
/// how much it accepted or what it produced, and the verified relay steps
/// hold for every answer it may give.
pub trait Tcp {
    /// Read up to `max` bytes the connection has ready.
    fn read(&mut self, max: usize) -> Result<Vec<u8>, ForwardingError>;

    /// Offer the connection `buf`; how many leading bytes it accepted comes
    /// back.
    fn write(&mut self, buf: &Vec<u8>) -> Result<usize, ForwardingError>;
}

/// The datagram capability of one forwarded flow: submission order per
/// source-address key is the implementation's to keep.
pub trait Udp {
    /// Send one datagram to `addr`.
    fn send_to(&mut self, buf: &Vec<u8>, addr: Endpoint) -> Result<usize, ForwardingError>;

    /// Receive one datagram of at most `max` bytes and its source address.
    fn recv_from(&mut self, max: usize) -> Result<(Vec<u8>, Endpoint), ForwardingError>;
}

/// A forwarding strategy: creates outbound stream or datagram connections to
/// real destinations. Errors are returned to the caller, never swallowed.
pub trait Proxy {
    /// Open a real stream connection to `dst`, or report why it could not be
    /// opened.
    fn new_tcp(&mut self, dst: Endpoint) -> Result<ProxySession, ForwardingError>;

    /// Open a real datagram flow to `dst`, or report why it could not be
    /// opened.
    fn new_udp(&mut self, dst: Endpoint) -> Result<ProxySession, ForwardingError>;

    /// Await orderly completion of whatever background work the strategy
    /// maintains; for a stateless strategy this is a no-op success.
    fn join(&mut self);
}

/// One driver tick's session step for one socket: when — and only when — the
/// socket is newly active with no session attached, ask the strategy for a
/// real connection to the socket's destination. Success attaches the session;
/// failure is surfaced as the returned error and aborts the virtual socket,
/// so the client that opened it observes a connection failure rather than a
/// hang. A socket that needs nothing is left untouched. Either way the socket
/// never leaves this step still waiting for a session.
pub fn request_session<P: Proxy>(
    proxy: &mut P,
    socket: &mut VirtualSocket,
    kind: SessionKind,
) -> (r: Result<(), ForwardingError>)
    ensures
        !old(socket).needs_session() ==> *final(socket) == *old(socket) && r is Ok,
        !final(socket).needs_session(),
        old(socket).needs_session() && r is Ok ==> final(socket).phase == SocketPhase::Active
            && final(socket).session is Some,
        r is Err ==> final(socket).phase == SocketPhase::Closed && final(socket).session is None,
        final(socket).port == old(socket).port,
        final(socket).dst == old(socket).dst,
{
    match socket.session_request() {
        None => Ok(()),
        Some(dst) => {
            let outcome = match kind {
                SessionKind::Stream => proxy.new_tcp(dst),
                SessionKind::Datagram => proxy.new_udp(dst),
            };
            match outcome {
                Ok(session) => {
                    socket.attach_session(Ok(session));
                    Ok(())
                },
                Err(e) => {
                    socket.attach_session(Err(e));
                    Err(e)
                },
            }
        },
    }
}

/// Push pending stream bytes into a forwarded connection: the whole buffer
/// is offered, the connection accepts some prefix of it, and exactly the
/// accepted prefix leaves the buffer — in order, nothing reordered, nothing
/// dropped unacknowledged. Whatever count a connection may answer, never more
/// than the buffer held is taken from it; an error leaves the buffer
/// untouched and is surfaced to the caller.
pub fn relay_into_tcp<T: Tcp>(conn: &mut T, pending: &mut Vec<u8>) -> (r: Result<
    usize,
    ForwardingError,
>)
    ensures
        r is Ok ==> r->Ok_0 <= old(pending)@.len() && final(pending)@ == old(pending)@.skip(
            r->Ok_0 as int,
        ),
        r is Err ==> final(pending)@ == old(pending)@,
{
    let offered = pending.len();
    match conn.write(pending) {
        Ok(n) => {
            let accepted = if n <= offered {
                n
            } else {
                offered
            };
            let mut taken: Vec<u8> = Vec::new();
            let moved = crate::driver::pump(pending, &mut taken, accepted);
            Ok(moved)
        },
        Err(e) => Err(e),
    }
}

/// The whole session step of one driver tick: every socket of the set that
/// needs a session gets exactly one request issued for it, serially, from the
/// one task that owns the set. Afterwards no socket is left waiting for a
/// session — each is either paired with one or aborted — and every socket
/// that needed nothing is exactly as it was: one request's failure reaches no
/// other socket.
pub fn tick_sessions<P: Proxy>(proxy: &mut P, set: &mut SocketSet, kind: SessionKind)
    ensures
        final(set).sockets@.len() == old(set).sockets@.len(),
        forall|k: int|
            0 <= k < final(set).sockets@.len() ==> {
                &&& !(#[trigger] final(set).sockets@[k]).needs_session()
                &&& final(set).sockets@[k].port == old(set).sockets@[k].port
                &&& final(set).sockets@[k].dst == old(set).sockets@[k].dst
                &&& (!old(set).sockets@[k].needs_session() ==> final(set).sockets@[k] == old(
                    set,
                ).sockets@[k])
            },
{
    let total = set.sockets.len();
    let mut updated: Vec<VirtualSocket> = Vec::new();
    let mut i: usize = 0;
    while i < total
        invariant
            set.sockets@ == old(set).sockets@,
            total == set.sockets@.len(),
            i <= total,
            updated@.len() == i,
            forall|k: int|
                0 <= k < i ==> {
                    &&& !(#[trigger] updated@[k]).needs_session()
                    &&& updated@[k].port == set.sockets@[k].port
                    &&& updated@[k].dst == set.sockets@[k].dst
                    &&& (!set.sockets@[k].needs_session() ==> updated@[k] == set.sockets@[k])
                },
        decreases total - i,
    {
        let mut socket = set.sockets[i];
        // A failure is already surfaced here: it aborts this very socket.
        let _outcome = request_session(proxy, &mut socket, kind);
        updated.push(socket);
        i = i + 1;
    }
    set.sockets = updated;
}

} // verus!

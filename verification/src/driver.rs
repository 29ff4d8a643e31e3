//! The IP stack driver's own per-tick decisions: which virtual sockets accept
//! a connection, when a real outbound session is requested and attached, how
//! application bytes are pumped under backpressure, and when sockets are
//! closed by forwarding failure or idle timeout and reaped.
//!
//! The embedded stack advances the TCP protocol states itself; this layer's
//! machine is smaller — listening, active, closed — and every transition of
//! it is a plain function from state and event to next state, specified here.
//! The asynchronous steps around it (connecting to a real destination,
//! awaiting buffer space) are performed outside; their outcomes come back as
//! plain values.

use vstd::prelude::*;
use crate::iface::Ipv4Address;

verus! {

/// A real destination a session connects to.
#[derive(Clone, Copy, PartialEq, Eq, Structural, Debug)]
pub struct Endpoint {
    pub addr: Ipv4Address,
    pub port: u16,
}

/// A connection-level failure from the forwarding capability. Surfaced to
/// the one virtual socket that requested the session — never swallowed, and
/// never fatal to other sockets or interfaces.
#[derive(Clone, Copy, PartialEq, Eq, Structural, Debug)]
pub enum ForwardingError {
    Refused,
    Timeout,
    Unreachable,
}

/// The two capabilities a forwarding strategy offers.
#[derive(Clone, Copy, PartialEq, Eq, Structural, Debug)]
pub enum SessionKind {
    Stream,
    Datagram,
}

/// One real outbound connection, paired 1:1 with the virtual socket it was
/// created for; it lives exactly as long as that pairing.
#[derive(Clone, Copy, PartialEq, Eq, Structural, Debug)]
pub struct ProxySession {
    pub kind: SessionKind,
    pub dst: Endpoint,
}

/// The driver's own per-socket machine. The full TCP state machine is the
/// embedded stack's; here a socket is listening, active (established on the
/// virtual network), or closed and ready to be reaped.
#[derive(Clone, Copy, PartialEq, Eq, Structural, Debug)]
pub enum SocketPhase {
    Listen,
    Active,
    Closed,
}

/// One virtual socket as the driver sees it: the port it serves, the real
/// destination its traffic is forwarded to, its phase, the session attached
/// to it once forwarding succeeded, and how long it has been idle.
#[derive(Clone, Copy, PartialEq, Eq, Structural, Debug)]
pub struct VirtualSocket {
    pub port: u16,
    pub dst: Endpoint,
    pub phase: SocketPhase,
    pub session: Option<ProxySession>,
    pub idle_ticks: u64,
}

/// What a valid connection-open sequence does to a socket: a listening
/// socket becomes active — exactly once — and anything else is left exactly
/// as it is, the open rejected. Rejection is this driver's fixed policy for
/// a second open while one connection is active.
pub open spec fn open_transition(s: VirtualSocket) -> (VirtualSocket, bool) {
    if s.phase == SocketPhase::Listen {
        (
            VirtualSocket {
                port: s.port,
                dst: s.dst,
                phase: SocketPhase::Active,
                session: None,
                idle_ticks: 0,
            },
            true,
        )
    } else {
        (s, false)
    }
}

impl VirtualSocket {
    /// A socket listening on `port`, forwarding to `dst` once a connection
    /// arrives.
    pub fn listen(port: u16, dst: Endpoint) -> (s: Self)
        ensures
            s == (VirtualSocket {
                port,
                dst,
                phase: SocketPhase::Listen,
                session: None,
                idle_ticks: 0,
            }),
    {
        VirtualSocket { port, dst, phase: SocketPhase::Listen, session: None, idle_ticks: 0 }
    }

    /// The socket still has no real session attached and needs one requested
    /// from the forwarding capability.
    pub open spec fn needs_session(self) -> bool {
        self.phase == SocketPhase::Active && self.session is None
    }

    /// A valid connection-open frame sequence arrived for this socket.
    /// Accepted — and the socket becomes active — exactly when the socket was
    /// listening; a second open while a connection is active is rejected and
    /// changes nothing.
    pub fn on_connection_open(&mut self) -> (accepted: bool)
        ensures
            *final(self) == open_transition(*old(self)).0,
            accepted == open_transition(*old(self)).1,
    {
        if self.phase == SocketPhase::Listen {
            self.phase = SocketPhase::Active;
            self.session = None;
            self.idle_ticks = 0;
            true
        } else {
            false
        }
    }

    /// The destination to request a session for, exactly when one is needed.
    pub fn session_request(&self) -> (r: Option<Endpoint>)
        ensures
            r == if self.needs_session() {
                Some(self.dst)
            } else {
                Option::<Endpoint>::None
            },
    {
        if self.phase == SocketPhase::Active && self.session.is_none() {
            Some(self.dst)
        } else {
            None
        }
    }

    /// The forwarding capability answered a session request. On success the
    /// session is attached and the socket's pairing with it begins; on
    /// failure the socket is aborted, so the client that opened it observes a
    /// connection failure rather than a hang. Other sockets are untouched by
    /// construction: the outcome reaches only the socket that asked.
    pub fn attach_session(&mut self, outcome: Result<ProxySession, ForwardingError>)
        requires
            old(self).needs_session(),
        ensures
            outcome is Ok ==> *final(self) == (VirtualSocket {
                port: old(self).port,
                dst: old(self).dst,
                phase: SocketPhase::Active,
                session: Some(outcome->Ok_0),
                idle_ticks: 0,
            }),
            outcome is Err ==> *final(self) == (VirtualSocket {
                port: old(self).port,
                dst: old(self).dst,
                phase: SocketPhase::Closed,
                session: None,
                idle_ticks: old(self).idle_ticks,
            }),
    {
        match outcome {
            Ok(session) => {
                self.session = Some(session);
                self.idle_ticks = 0;
            },
            Err(_) => {
                self.phase = SocketPhase::Closed;
                self.session = None;
            },
        }
    }

    /// Bytes moved or a keep-alive answered: the socket is not idle.
    pub fn record_activity(&mut self)
        ensures
            *final(self) == (VirtualSocket { idle_ticks: 0, ..*old(self) }),
    {
        self.idle_ticks = 0;
    }

    /// Account `elapsed` ticks of silence. An active socket whose idle time
    /// reaches `idle_timeout` is closed — the only timeout mechanism in the
    /// core; sockets in other phases only accumulate idle time.
    pub fn tick_timeout(&mut self, elapsed: u64, idle_timeout: u64) -> (closed_now: bool)
        ensures
            final(self).port == old(self).port,
            final(self).dst == old(self).dst,
            final(self).session == old(self).session,
            final(self).idle_ticks == if old(self).idle_ticks + elapsed <= u64::MAX {
                old(self).idle_ticks + elapsed
            } else {
                u64::MAX as int
            },
            closed_now == (old(self).phase == SocketPhase::Active && final(self).idle_ticks
                >= idle_timeout),
            final(self).phase == if closed_now {
                SocketPhase::Closed
            } else {
                old(self).phase
            },
    {
        self.idle_ticks = if elapsed <= u64::MAX - self.idle_ticks {
            self.idle_ticks + elapsed
        } else {
            u64::MAX
        };
        if self.phase == SocketPhase::Active && self.idle_ticks >= idle_timeout {
            self.phase = SocketPhase::Closed;
            true
        } else {
            false
        }
    }
}

/// A listening socket accepts a valid connection-open sequence exactly once:
/// the first one makes it active, and a second one arriving while the
/// connection is active is rejected and leaves the socket exactly as the
/// first open left it.
pub proof fn lemma_connection_open_exactly_once(s: VirtualSocket)
    requires
        s.phase == SocketPhase::Listen,
    ensures
        open_transition(s).1,
        open_transition(s).0.phase == SocketPhase::Active,
        !open_transition(open_transition(s).0).1,
        open_transition(open_transition(s).0).0 == open_transition(s).0,
{
}

/// Move bytes from the front of `src` to the back of `dst`, as many as fit
/// under `capacity`: all of `src` when there is room, otherwise exactly up to
/// the capacity — never more, so neither side buffers without bound. The
/// moved bytes are the verbatim prefix of `src`, appended in order: relayed
/// streams are neither reordered nor truncated beyond backpressure.
pub fn pump(src: &mut Vec<u8>, dst: &mut Vec<u8>, capacity: usize) -> (n: usize)
    requires
        old(dst)@.len() <= capacity,
    ensures
        n == if old(src)@.len() <= capacity - old(dst)@.len() {
            old(src)@.len() as int
        } else {
            capacity - old(dst)@.len()
        },
        final(dst)@ == old(dst)@ + old(src)@.subrange(0, n as int),
        final(src)@ == old(src)@.skip(n as int),
{
    let room = capacity - dst.len();
    let n = if src.len() <= room {
        src.len()
    } else {
        room
    };
    let mut i: usize = 0;
    while i < n
        invariant
            n <= src@.len(),
            i <= n,
            src@ == old(src)@,
            dst@ == old(dst)@ + src@.subrange(0, i as int),
        decreases n - i,
    {
        proof {
            assert(old(dst)@ + src@.subrange(0, i as int + 1) =~= (old(dst)@ + src@.subrange(
                0,
                i as int,
            )).push(src@[i as int]));
        }
        let b = src[i];
        dst.push(b);
        i = i + 1;
    }
    let mut rest: Vec<u8> = Vec::new();
    let total = src.len();
    let mut j: usize = n;
    while j < total
        invariant
            n <= total == src@.len(),
            n <= j <= total,
            src@ == old(src)@,
            rest@ == src@.subrange(n as int, j as int),
        decreases total - j,
    {
        proof {
            assert(src@.subrange(n as int, j as int + 1) =~= src@.subrange(n as int, j as int).push(
                src@[j as int],
            ));
        }
        let b = src[j];
        rest.push(b);
        j = j + 1;
    }
    proof {
        assert(rest@ =~= old(src)@.skip(n as int));
        assert(old(dst)@ + old(src)@.subrange(0, 0) =~= old(dst)@);
    }
    *src = rest;
    n
}

/// The sockets that are not yet closed, kept in order.
pub open spec fn live_of(sockets: Seq<VirtualSocket>) -> Seq<VirtualSocket>
    decreases sockets.len(),
{
    if sockets.len() == 0 {
        Seq::empty()
    } else {
        let rest = live_of(sockets.drop_last());
        if sockets.last().phase == SocketPhase::Closed {
            rest
        } else {
            rest.push(sockets.last())
        }
    }
}

/// The driver's collection of virtual sockets, owned and mutated by exactly
/// one task.
pub struct SocketSet {
    pub sockets: Vec<VirtualSocket>,
}

impl SocketSet {
    /// An empty set.
    pub fn new() -> (s: Self)
        ensures
            s.sockets@ == Seq::<VirtualSocket>::empty(),
    {
        SocketSet { sockets: Vec::new() }
    }

    /// Add one socket; its index is its handle until the next reap.
    pub fn add(&mut self, socket: VirtualSocket) -> (handle: usize)
        ensures
            final(self).sockets@ == old(self).sockets@.push(socket),
            handle == old(self).sockets@.len(),
    {
        let handle = self.sockets.len();
        self.sockets.push(socket);
        handle
    }

    /// How many sockets the set holds.
    pub fn len(&self) -> (n: usize)
        ensures
            n == self.sockets@.len(),
    {
        self.sockets.len()
    }

    /// Whether another virtual socket may still be created under the
    /// configured maximum of concurrent sockets.
    pub fn accepts_more(&self, max_sockets: usize) -> (r: bool)
        ensures
            r == (self.sockets@.len() < max_sockets),
    {
        self.sockets.len() < max_sockets
    }

    /// Drop every closed socket — its session's pairing ended with it — and
    /// keep all others in order.
    pub fn reap_closed(&mut self)
        ensures
            final(self).sockets@ == live_of(old(self).sockets@),
    {
        let mut kept: Vec<VirtualSocket> = Vec::new();
        let total = self.sockets.len();
        let mut i: usize = 0;
        proof {
            assert(self.sockets@.subrange(0, 0) =~= Seq::<VirtualSocket>::empty());
        }
        while i < total
            invariant
                total == self.sockets@.len(),
                i <= total,
                kept@ == live_of(self.sockets@.subrange(0, i as int)),
            decreases total - i,
        {
            proof {
                assert(self.sockets@.subrange(0, i as int + 1).drop_last() =~= self.sockets@.subrange(
                    0,
                    i as int,
                ));
                assert(self.sockets@.subrange(0, i as int + 1).last() == self.sockets@[i as int]);
            }
            let socket = self.sockets[i];
            if socket.phase != SocketPhase::Closed {
                kept.push(socket);
            }
            i = i + 1;
        }
        proof {
            assert(self.sockets@.subrange(0, total as int) =~= self.sockets@);
        }
        self.sockets = kept;
    }
}

} // verus!

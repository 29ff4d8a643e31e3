use lan_play::driver::pump;
use lan_play::driver::Endpoint;
use lan_play::driver::ForwardingError;
use lan_play::driver::ProxySession;
use lan_play::driver::SessionKind;
use lan_play::driver::SocketPhase;
use lan_play::driver::SocketSet;
use lan_play::driver::VirtualSocket;
use lan_play::iface::Ipv4Address;
use lan_play::proxy::relay_into_tcp;
use lan_play::proxy::request_session;
use lan_play::proxy::Tcp;
use lan_play::proxy::tick_sessions;
use lan_play::proxy::Proxy;

fn loopback(port: u16) -> Endpoint {
    Endpoint { addr: Ipv4Address::from_octets(127, 0, 0, 1), port }
}

/// A stateless strategy that answers every request the same way.
struct StubProxy {
    fail: Option<ForwardingError>,
    requests: usize,
}

impl Proxy for StubProxy {
    fn new_tcp(&mut self, dst: Endpoint) -> Result<ProxySession, ForwardingError> {
        self.requests += 1;
        match self.fail {
            Some(e) => Err(e),
            None => Ok(ProxySession { kind: SessionKind::Stream, dst }),
        }
    }

    fn new_udp(&mut self, dst: Endpoint) -> Result<ProxySession, ForwardingError> {
        self.requests += 1;
        match self.fail {
            Some(e) => Err(e),
            None => Ok(ProxySession { kind: SessionKind::Datagram, dst }),
        }
    }

    fn join(&mut self) {}
}

#[test]
fn connection_open_accepted_exactly_once() {
    let mut socket = VirtualSocket::listen(1234, loopback(8080));
    assert_eq!(socket.phase, SocketPhase::Listen);
    assert!(socket.on_connection_open());
    assert_eq!(socket.phase, SocketPhase::Active);
    let after_first = socket;
    // A second connection-open sequence while one is active is rejected, and
    // the socket is exactly as the first open left it.
    assert!(!socket.on_connection_open());
    assert_eq!(socket, after_first);
    assert!(!socket.on_connection_open());
    assert_eq!(socket, after_first);
}

#[test]
fn session_attached_on_success() {
    let mut socket = VirtualSocket::listen(1234, loopback(8080));
    socket.on_connection_open();
    let mut proxy = StubProxy { fail: None, requests: 0 };
    let r = request_session(&mut proxy, &mut socket, SessionKind::Stream);
    assert_eq!(r, Ok(()));
    assert_eq!(proxy.requests, 1);
    assert_eq!(socket.phase, SocketPhase::Active);
    assert_eq!(
        socket.session,
        Some(ProxySession { kind: SessionKind::Stream, dst: loopback(8080) })
    );
    // The pairing is 1:1: an attached socket asks for nothing further.
    let r2 = request_session(&mut proxy, &mut socket, SessionKind::Stream);
    assert_eq!(r2, Ok(()));
    assert_eq!(proxy.requests, 1);
}

#[test]
fn forwarding_failure_aborts_only_the_asking_socket() {
    let mut socket = VirtualSocket::listen(1234, loopback(8080));
    socket.on_connection_open();
    let mut bystander = VirtualSocket::listen(5678, loopback(9090));
    bystander.on_connection_open();
    let mut proxy = StubProxy { fail: Some(ForwardingError::Refused), requests: 0 };
    let r = request_session(&mut proxy, &mut socket, SessionKind::Stream);
    // The error is surfaced, never swallowed, and the socket is aborted so
    // the client observes a connection failure rather than a hang.
    assert_eq!(r, Err(ForwardingError::Refused));
    assert_eq!(socket.phase, SocketPhase::Closed);
    assert_eq!(socket.session, None);
    assert_eq!(bystander.phase, SocketPhase::Active);
}

#[test]
fn datagram_sessions_use_the_datagram_capability() {
    let mut socket = VirtualSocket::listen(1234, loopback(53));
    socket.on_connection_open();
    let mut proxy = StubProxy { fail: None, requests: 0 };
    assert_eq!(request_session(&mut proxy, &mut socket, SessionKind::Datagram), Ok(()));
    assert_eq!(
        socket.session,
        Some(ProxySession { kind: SessionKind::Datagram, dst: loopback(53) })
    );
}

#[test]
fn relay_is_byte_exact_both_ways() {
    // The verified pump preserves content and order in both directions of a
    // direct-forwarding session: the endpoint observes the client's bytes
    // verbatim and the client observes the reply verbatim.
    let mut client_out: Vec<u8> = b"hello".to_vec();
    let mut upstream_in: Vec<u8> = Vec::new();
    let moved = pump(&mut client_out, &mut upstream_in, 1024);
    assert_eq!(moved, 5);
    assert_eq!(upstream_in, b"hello".to_vec());
    assert!(client_out.is_empty());

    let mut upstream_out: Vec<u8> = b"world".to_vec();
    let mut client_in: Vec<u8> = Vec::new();
    let moved_back = pump(&mut upstream_out, &mut client_in, 1024);
    assert_eq!(moved_back, 5);
    assert_eq!(client_in, b"world".to_vec());
    assert!(upstream_out.is_empty());
}

#[test]
fn pump_backs_off_at_capacity() {
    let mut src: Vec<u8> = vec![1, 2, 3, 4, 5];
    let mut dst: Vec<u8> = vec![9];
    // Room for two more bytes only: the pump moves exactly the fitting
    // prefix and leaves the rest queued, in order.
    let moved = pump(&mut src, &mut dst, 3);
    assert_eq!(moved, 2);
    assert_eq!(dst, vec![9, 1, 2]);
    assert_eq!(src, vec![3, 4, 5]);
}

#[test]
fn idle_timeout_closes_active_sockets() {
    let mut socket = VirtualSocket::listen(1234, loopback(8080));
    socket.on_connection_open();
    assert!(!socket.tick_timeout(1, 3));
    assert_eq!(socket.phase, SocketPhase::Active);
    socket.record_activity();
    assert_eq!(socket.idle_ticks, 0);
    assert!(!socket.tick_timeout(2, 3));
    assert!(socket.tick_timeout(1, 3));
    assert_eq!(socket.phase, SocketPhase::Closed);
}

#[test]
fn listening_sockets_never_time_out() {
    let mut socket = VirtualSocket::listen(1234, loopback(8080));
    assert!(!socket.tick_timeout(1000, 3));
    assert_eq!(socket.phase, SocketPhase::Listen);
}

#[test]
fn reap_drops_closed_sockets_in_order() {
    let mut set = SocketSet::new();
    let mut a = VirtualSocket::listen(1, loopback(1));
    a.on_connection_open();
    let mut b = VirtualSocket::listen(2, loopback(2));
    b.on_connection_open();
    b.tick_timeout(10, 1);
    let c = VirtualSocket::listen(3, loopback(3));
    assert_eq!(set.add(a), 0);
    assert_eq!(set.add(b), 1);
    assert_eq!(set.add(c), 2);
    assert_eq!(set.len(), 3);
    set.reap_closed();
    assert_eq!(set.len(), 2);
    assert_eq!(set.sockets[0].port, 1);
    assert_eq!(set.sockets[1].port, 3);
}

#[test]
fn tick_settles_every_waiting_socket() {
    let mut set = SocketSet::new();
    let mut a = VirtualSocket::listen(1, loopback(1));
    a.on_connection_open();
    let b = VirtualSocket::listen(2, loopback(2));
    let mut c = VirtualSocket::listen(3, loopback(3));
    c.on_connection_open();
    set.add(a);
    set.add(b);
    set.add(c);
    let mut proxy = StubProxy { fail: None, requests: 0 };
    tick_sessions(&mut proxy, &mut set, SessionKind::Stream);
    // Exactly one request per waiting socket; the listener is untouched.
    assert_eq!(proxy.requests, 2);
    assert!(set.sockets[0].session.is_some());
    assert_eq!(set.sockets[1], b);
    assert!(set.sockets[2].session.is_some());
}

#[test]
fn tick_failures_abort_only_waiting_sockets() {
    let mut set = SocketSet::new();
    let mut a = VirtualSocket::listen(1, loopback(1));
    a.on_connection_open();
    let b = VirtualSocket::listen(2, loopback(2));
    set.add(a);
    set.add(b);
    let mut proxy = StubProxy { fail: Some(ForwardingError::Timeout), requests: 0 };
    tick_sessions(&mut proxy, &mut set, SessionKind::Stream);
    assert_eq!(set.sockets[0].phase, SocketPhase::Closed);
    assert_eq!(set.sockets[1], b);
    set.reap_closed();
    assert_eq!(set.len(), 1);
    assert_eq!(set.sockets[0], b);
}

/// A stream stub that accepts a fixed number of bytes per write, or fails.
struct StubTcp {
    accept_per_write: usize,
    written: Vec<u8>,
    fail: Option<ForwardingError>,
}

impl Tcp for StubTcp {
    fn read(&mut self, _max: usize) -> Result<Vec<u8>, ForwardingError> {
        Ok(Vec::new())
    }

    fn write(&mut self, buf: &Vec<u8>) -> Result<usize, ForwardingError> {
        if let Some(e) = self.fail {
            return Err(e);
        }
        let n = self.accept_per_write.min(buf.len());
        self.written.extend_from_slice(&buf[..n]);
        Ok(n)
    }
}

#[test]
fn relay_removes_exactly_the_accepted_prefix() {
    let mut conn = StubTcp { accept_per_write: 3, written: Vec::new(), fail: None };
    let mut pending: Vec<u8> = b"hello".to_vec();
    assert_eq!(relay_into_tcp(&mut conn, &mut pending), Ok(3));
    assert_eq!(conn.written, b"hel".to_vec());
    assert_eq!(pending, b"lo".to_vec());
    assert_eq!(relay_into_tcp(&mut conn, &mut pending), Ok(2));
    assert_eq!(conn.written, b"hello".to_vec());
    assert!(pending.is_empty());
}

#[test]
fn relay_error_leaves_the_buffer_untouched() {
    let mut conn = StubTcp {
        accept_per_write: 3,
        written: Vec::new(),
        fail: Some(ForwardingError::Unreachable),
    };
    let mut pending: Vec<u8> = b"hello".to_vec();
    assert_eq!(relay_into_tcp(&mut conn, &mut pending), Err(ForwardingError::Unreachable));
    assert_eq!(pending, b"hello".to_vec());
}

/// A broken stream that claims to accept more bytes than it was offered.
struct GreedyTcp;

impl Tcp for GreedyTcp {
    fn read(&mut self, _max: usize) -> Result<Vec<u8>, ForwardingError> {
        Ok(Vec::new())
    }

    fn write(&mut self, buf: &Vec<u8>) -> Result<usize, ForwardingError> {
        Ok(buf.len() + 100)
    }
}

#[test]
fn relay_never_takes_more_than_it_held() {
    let mut conn = GreedyTcp;
    let mut pending: Vec<u8> = b"ab".to_vec();
    assert_eq!(relay_into_tcp(&mut conn, &mut pending), Ok(2));
    assert!(pending.is_empty());
}

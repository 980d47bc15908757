use fastcgi_transport::{
    Action, InetPeer, PeerAddr, Phase, ProbeError, ProbeOutcome, Socket, Teardown, Transport, TransportError,
    LISTENSOCK_FILENO,
};
use nix::errno::Errno;

fn socket_on(fd: i32) -> Socket {
    match Transport::from_fd(3).accept(Ok(fd)) {
        Ok(socket) => socket,
        Err(_) => panic!("accept of a good descriptor failed"),
    }
}

fn draining(fd: i32) -> Teardown {
    let (mut teardown, first) = socket_on(fd).release();
    assert_eq!(first, Action::ShutdownWrite);
    assert_eq!(teardown.advance(Ok(0)), Action::Read);
    teardown
}

#[test]
fn new_binds_the_inherited_descriptor() {
    assert_eq!(LISTENSOCK_FILENO, 0);
    assert_eq!(Transport::new().as_raw_fd(), 0);
}

#[test]
fn from_fd_binds_the_given_descriptor() {
    assert_eq!(Transport::from_fd(17).as_raw_fd(), 17);
    assert_eq!(Transport::from_fd(-1).as_raw_fd(), -1);
}

#[test]
fn probe_not_connected_means_listening() {
    let transport = Transport::new();
    let probe = Err(ProbeError::Sys(Errno::ENOTCONN as i32));
    assert!(transport.is_fastcgi(&probe));
    assert_eq!(Transport::classify_probe(&probe), ProbeOutcome::NotConnected);
    assert!(ProbeOutcome::NotConnected.is_listening());
}

#[test]
fn probe_with_a_peer_means_stream() {
    let transport = Transport::new();
    let inet = InetPeer::V4 { a: 10, b: 0, c: 0, d: 1, port: 80 };
    assert!(!transport.is_fastcgi(&Ok(PeerAddr::Unix)));
    assert!(!transport.is_fastcgi(&Ok(PeerAddr::Inet(inet))));
    assert!(!transport.is_fastcgi(&Ok(PeerAddr::Other)));
    assert_eq!(Transport::classify_probe(&Ok(PeerAddr::Unix)), ProbeOutcome::Stream);
    assert!(!ProbeOutcome::Stream.is_listening());
}

#[test]
fn probe_with_another_failure_means_stream() {
    let transport = Transport::new();
    assert!(!transport.is_fastcgi(&Err(ProbeError::Sys(Errno::EBADF as i32))));
    assert!(!transport.is_fastcgi(&Err(ProbeError::Sys(Errno::ENOTSOCK as i32))));
    assert!(!transport.is_fastcgi(&Err(ProbeError::Sys(0))));
    assert!(!transport.is_fastcgi(&Err(ProbeError::Sys(-1))));
    assert!(!transport.is_fastcgi(&Err(ProbeError::Other)));
}

#[test]
fn probe_tells_not_connected_from_its_neighbours() {
    let code = Errno::ENOTCONN as i32;
    let transport = Transport::new();
    assert!(transport.is_fastcgi(&Err(ProbeError::Sys(code))));
    assert!(!transport.is_fastcgi(&Err(ProbeError::Sys(code - 1))));
    assert!(!transport.is_fastcgi(&Err(ProbeError::Sys(code + 1))));
}

#[test]
fn accept_wraps_the_new_descriptor() {
    let mut transport = Transport::from_fd(4);
    let socket = transport.accept(Ok(9)).ok().expect("accepted");
    assert_eq!(socket.as_raw_fd(), 9);
    assert_eq!(transport.as_raw_fd(), 4);
}

#[test]
fn accept_reports_the_system_error() {
    let mut transport = Transport::from_fd(4);
    let code = Errno::EINTR as i32;
    match transport.accept(Err(code)) {
        Ok(_) => panic!("a failed accept gave a connection"),
        Err(e) => {
            assert_eq!(e, TransportError::Os(code));
            assert_eq!(e.raw_os_error(), Some(code));
            assert!(!e.is_unsupported_peer());
        }
    }
    assert_eq!(transport.as_raw_fd(), 4);
}

#[test]
fn peer_of_an_ipv4_peer_is_address_and_port() {
    let socket = socket_on(5);
    let addr = InetPeer::V4 { a: 127, b: 0, c: 0, d: 1, port: 8080 };
    assert_eq!(socket.peer(&Ok(PeerAddr::Inet(addr))), Ok(String::from("127.0.0.1:8080")));
    let other = InetPeer::V4 { a: 192, b: 168, c: 1, d: 20, port: 65535 };
    assert_eq!(socket.peer(&Ok(PeerAddr::Inet(other))), Ok(String::from("192.168.1.20:65535")));
}

#[test]
fn peer_of_an_ipv4_peer_at_the_ends_of_the_ranges() {
    let socket = socket_on(5);
    let low = InetPeer::V4 { a: 0, b: 0, c: 0, d: 0, port: 0 };
    assert_eq!(socket.peer(&Ok(PeerAddr::Inet(low))), Ok(String::from("0.0.0.0:0")));
    let high = InetPeer::V4 { a: 255, b: 255, c: 255, d: 255, port: 65535 };
    assert_eq!(socket.peer(&Ok(PeerAddr::Inet(high))), Ok(String::from("255.255.255.255:65535")));
    let mixed = InetPeer::V4 { a: 10, b: 100, c: 9, d: 101, port: 1000 };
    assert_eq!(socket.peer(&Ok(PeerAddr::Inet(mixed))), Ok(String::from("10.100.9.101:1000")));
}

#[test]
fn peer_of_an_ipv6_peer_is_bracketed_address_and_port() {
    let socket = socket_on(5);
    let loopback = InetPeer::V6 { segments: [0, 0, 0, 0, 0, 0, 0, 1], port: 443 };
    assert_eq!(socket.peer(&Ok(PeerAddr::Inet(loopback))), Ok(String::from("[::1]:443")));
    let doc = InetPeer::V6 { segments: [0x2001, 0xdb8, 0, 0, 0, 0, 0, 0x12], port: 9000 };
    assert_eq!(socket.peer(&Ok(PeerAddr::Inet(doc))), Ok(String::from("[2001:db8::12]:9000")));
}

#[test]
fn peer_of_a_local_peer_is_empty() {
    let socket = socket_on(5);
    assert_eq!(socket.peer(&Ok(PeerAddr::Unix)), Ok(String::new()));
}

#[test]
fn peer_of_an_unknown_family_is_unsupported() {
    let socket = socket_on(5);
    let r = socket.peer(&Ok(PeerAddr::Other));
    assert_eq!(r, Err(TransportError::UnsupportedPeer));
    assert!(TransportError::UnsupportedPeer.is_unsupported_peer());
    assert_eq!(TransportError::UnsupportedPeer.raw_os_error(), None);
    assert_eq!(TransportError::UnsupportedPeer.description(), Some("Unsupported FastCGI socket"));
    assert_eq!(TransportError::Os(4).description(), None);
}

#[test]
fn peer_after_a_failed_query_is_unsupported() {
    let socket = socket_on(5);
    let code = Errno::ENOTCONN as i32;
    assert_eq!(socket.peer(&Err(ProbeError::Sys(code))), Err(TransportError::UnsupportedPeer));
    assert_eq!(socket.peer(&Err(ProbeError::Other)), Err(TransportError::UnsupportedPeer));
}

#[test]
fn read_returns_the_count_or_the_error() {
    let socket = socket_on(6);
    assert_eq!(socket.read(Ok(4)), Ok(4));
    assert_eq!(socket.read(Ok(0)), Ok(0));
    let code = Errno::ECONNRESET as i32;
    assert_eq!(socket.read(Err(code)), Err(TransportError::Os(code)));
}

#[test]
fn write_returns_a_short_count_as_it_is() {
    let socket = socket_on(6);
    assert_eq!(socket.write(Ok(3)), Ok(3));
    assert_eq!(socket.write(Ok(0)), Ok(0));
    let code = Errno::EPIPE as i32;
    assert_eq!(socket.write(Err(code)), Err(TransportError::Os(code)));
}

#[test]
fn flush_does_nothing_and_succeeds() {
    assert_eq!(socket_on(6).flush(), Ok(()));
}

#[test]
fn release_starts_with_the_half_close() {
    let (teardown, first) = socket_on(11).release();
    assert_eq!(first, Action::ShutdownWrite);
    assert_eq!(teardown.as_raw_fd(), 11);
    assert_eq!(teardown.phase(), Phase::HalfClosing);
    assert_eq!(teardown.drained(), 0);
    assert!(!teardown.is_released());
}

#[test]
fn teardown_runs_half_close_drain_close() {
    let (mut teardown, _) = socket_on(11).release();
    assert_eq!(teardown.advance(Ok(0)), Action::Read);
    assert_eq!(teardown.phase(), Phase::Draining);
    assert_eq!(teardown.advance(Ok(5)), Action::Read);
    assert_eq!(teardown.advance(Ok(7)), Action::Read);
    assert_eq!(teardown.phase(), Phase::Draining);
    assert_eq!(teardown.advance(Ok(0)), Action::Close);
    assert_eq!(teardown.phase(), Phase::Closing);
    assert_eq!(teardown.drained(), 12);
    assert_eq!(teardown.advance(Ok(0)), Action::Done);
    assert_eq!(teardown.phase(), Phase::Released);
    assert!(teardown.is_released());
    assert_eq!(teardown.as_raw_fd(), 11);
}

#[test]
fn teardown_goes_on_after_a_failed_half_close() {
    let (mut teardown, _) = socket_on(11).release();
    assert_eq!(teardown.advance(Err(Errno::ENOTCONN as i32)), Action::Read);
    assert_eq!(teardown.phase(), Phase::Draining);
    assert_eq!(teardown.drained(), 0);
}

#[test]
fn teardown_closes_after_a_failed_read() {
    let mut teardown = draining(11);
    assert_eq!(teardown.advance(Ok(3)), Action::Read);
    assert_eq!(teardown.advance(Err(Errno::EINTR as i32)), Action::Close);
    assert_eq!(teardown.drained(), 3);
    assert_eq!(teardown.phase(), Phase::Closing);
}

#[test]
fn teardown_is_released_after_a_failed_close() {
    let mut teardown = draining(11);
    assert_eq!(teardown.advance(Ok(0)), Action::Close);
    assert_eq!(teardown.advance(Err(Errno::EBADF as i32)), Action::Done);
    assert!(teardown.is_released());
}

#[test]
fn released_teardown_asks_for_nothing_more() {
    let mut teardown = draining(11);
    teardown.advance(Ok(9));
    teardown.advance(Ok(0));
    teardown.advance(Ok(0));
    assert!(teardown.is_released());
    for outcome in [Ok(4), Ok(0), Err(5)] {
        assert_eq!(teardown.advance(outcome), Action::Done);
        assert_eq!(teardown.phase(), Phase::Released);
        assert_eq!(teardown.drained(), 9);
    }
}

#[test]
fn close_is_asked_for_exactly_once() {
    let (mut teardown, first) = socket_on(11).release();
    let mut actions = vec![first];
    for outcome in [Ok(0), Ok(2), Ok(2), Err(4), Ok(0), Ok(1), Ok(0)] {
        actions.push(teardown.advance(outcome));
    }
    assert_eq!(
        actions,
        vec![
            Action::ShutdownWrite,
            Action::Read,
            Action::Read,
            Action::Read,
            Action::Close,
            Action::Done,
            Action::Done,
            Action::Done,
        ]
    );
}

#[test]
fn drained_count_stops_at_the_largest_value() {
    let mut teardown = draining(11);
    assert_eq!(teardown.advance(Ok(usize::MAX - 1)), Action::Read);
    assert_eq!(teardown.drained(), usize::MAX - 1);
    assert_eq!(teardown.advance(Ok(1)), Action::Read);
    assert_eq!(teardown.drained(), usize::MAX);
    assert_eq!(teardown.advance(Ok(10)), Action::Read);
    assert_eq!(teardown.drained(), usize::MAX);
}

//! One accepted connection.

use crate::error::{lift, TransportError};
use crate::peer::{InetPeer, PeerAddr, ProbeError};
use crate::sys::{format_inet, inet_text, v4_text};
use crate::teardown::{start, Action, Teardown};
use vstd::prelude::*;

verus! {

/// The name of a peer, given the answer of a peer-name query on the
/// connection's descriptor: the address and port of a network peer, the empty
/// text for a local peer, and no name for anything else.
pub open spec fn peer_name(query: Result<PeerAddr, ProbeError>) -> Option<Seq<char>> {
    match query {
        Ok(PeerAddr::Inet(addr)) => Some(inet_text(addr)),
        Ok(PeerAddr::Unix) => Some(Seq::<char>::empty()),
        _ => None,
    }
}

/// An accepted connection. It owns its descriptor: the only way to make one
/// is `Transport::accept`, it cannot be copied, and releasing it consumes it.
pub struct Socket {
    inner: i32,
}

impl Socket {
    /// The descriptor that the connection owns.
    pub closed spec fn fd(&self) -> i32 {
        self.inner
    }

    pub(crate) fn from_accepted(fd: i32) -> (s: Self)
        ensures
            s.fd() == fd,
    {
        Socket { inner: fd }
    }

    /// The descriptor on which the caller makes the system calls.
    pub fn as_raw_fd(&self) -> (fd: i32)
        ensures
            fd == self.fd(),
    {
        self.inner
    }

    /// The remote endpoint as text, given the answer of a peer-name query on
    /// the connection's descriptor. A network peer gives its address and
    /// port, never empty, and for IPv4 in the form `a.b.c.d:port`; a local
    /// peer gives the empty string; any other answer, a failed query
    /// included, gives `UnsupportedPeer`.
    pub fn peer(&self, query: &Result<PeerAddr, ProbeError>) -> (r: Result<String, TransportError>)
        ensures
            match peer_name(*query) {
                Some(name) => r is Ok && r->Ok_0@ == name,
                None => r is Err && r->Err_0 == TransportError::UnsupportedPeer,
            },
            query matches Ok(PeerAddr::Inet(_)) ==> r is Ok && r->Ok_0@.len() > 0,
            *query matches Ok(PeerAddr::Inet(InetPeer::V4 { a, b, c, d, port })) ==> r is Ok
                && r->Ok_0@ == v4_text(a, b, c, d, port),
            query matches Ok(PeerAddr::Unix) ==> r is Ok && r->Ok_0@.len() == 0,
    {
        match query {
            Ok(PeerAddr::Inet(addr)) => Ok(format_inet(addr)),
            Ok(PeerAddr::Unix) => Ok(String::new()),
            _ => Err(TransportError::UnsupportedPeer),
        }
    }

    /// The result of one read on the connection's descriptor: the count that
    /// the system reported (zero at the peer's end of stream), or the
    /// transport error that carries the system's error code.
    pub fn read(&self, outcome: Result<usize, i32>) -> (r: Result<usize, TransportError>)
        ensures
            r == lift(outcome),
    {
        match outcome {
            Ok(size) => Ok(size),
            Err(code) => Err(TransportError::Os(code)),
        }
    }

    /// The result of one write on the connection's descriptor: the count that
    /// the system accepted, which may be less than was offered, or the
    /// transport error that carries the system's error code.
    pub fn write(&self, outcome: Result<usize, i32>) -> (r: Result<usize, TransportError>)
        ensures
            r == lift(outcome),
    {
        match outcome {
            Ok(size) => Ok(size),
            Err(code) => Err(TransportError::Os(code)),
        }
    }

    /// Nothing is buffered, so there is nothing to flush.
    pub fn flush(&self) -> (r: Result<(), TransportError>)
        ensures
            r is Ok,
    {
        Ok(())
    }

    /// Gives the connection up. The teardown that is returned starts in its
    /// first phase on the connection's descriptor, and the first action is to
    /// shut down the write direction.
    pub fn release(self) -> (t: (Teardown, Action))
        ensures
            t.0@ == start(self.fd()),
            t.1 == Action::ShutdownWrite,
    {
        (Teardown::begin(self.inner), Action::ShutdownWrite)
    }
}

} // verus!

//! What a peer-name query on a descriptor can answer, as plain values.

use vstd::prelude::*;

verus! {

/// A network endpoint: an IP address and a port.
#[derive(Clone, Copy, Debug, PartialEq, Eq)]
pub enum InetPeer {
    /// The IPv4 address `a.b.c.d` and a port.
    V4 { a: u8, b: u8, c: u8, d: u8, port: u16 },
    /// The eight 16-bit segments of an IPv6 address and a port.
    V6 { segments: [u16; 8], port: u16 },
}

/// The address family of a connected peer, with the address where the
/// transport reads it.
#[derive(Clone, Copy, Debug, PartialEq, Eq)]
pub enum PeerAddr {
    /// A network peer.
    Inet(InetPeer),
    /// A local (domain socket) peer.
    Unix,
    /// A peer of any other address family.
    Other,
}

/// Why a peer-name query failed.
#[derive(Clone, Copy, Debug, PartialEq, Eq, Structural)]
pub enum ProbeError {
    /// The system call failed with this error code.
    Sys(i32),
    /// The query failed without a system error code.
    Other,
}

/// What one peer-name query says about the descriptor it was made on.
#[derive(Clone, Copy, Debug, PartialEq, Eq, Structural)]
pub enum ProbeOutcome {
    /// The descriptor has a peer, or the query failed in a way that does not
    /// show a listening socket.
    Stream,
    /// The system reported that the descriptor is not connected.
    NotConnected,
}

impl ProbeOutcome {
    /// A descriptor is a listening socket exactly when the probe found it
    /// not connected.
    pub fn is_listening(self) -> (b: bool)
        ensures
            b == (self == ProbeOutcome::NotConnected),
    {
        match self {
            ProbeOutcome::NotConnected => true,
            ProbeOutcome::Stream => false,
        }
    }
}

} // verus!

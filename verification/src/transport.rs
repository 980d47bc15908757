//! The inherited listening descriptor: mode detection and accept.

use crate::error::TransportError;
use crate::peer::{PeerAddr, ProbeError, ProbeOutcome};
use crate::socket::Socket;
use crate::sys::{errno_is_not_connected, not_connected_code};
use vstd::prelude::*;

verus! {

/// The descriptor number at which the supervisor hands over the listening
/// socket.
pub const LISTENSOCK_FILENO: i32 = 0;

/// What a peer-name query on the listening descriptor shows: the descriptor
/// is not connected exactly when the query failed with a system error whose
/// code is the platform's "not connected".
pub open spec fn probe_outcome(probe: Result<PeerAddr, ProbeError>) -> ProbeOutcome {
    match probe {
        Err(ProbeError::Sys(code)) if not_connected_code(code) => ProbeOutcome::NotConnected,
        _ => ProbeOutcome::Stream,
    }
}

/// The listening descriptor that the process inherited. The transport never
/// closes it.
pub struct Transport {
    inner: i32,
}

impl Transport {
    /// The descriptor that the handle is bound to.
    pub closed spec fn fd(&self) -> i32 {
        self.inner
    }

    /// A handle bound to the well-known inherited descriptor.
    pub fn new() -> (t: Self)
        ensures
            t.fd() == LISTENSOCK_FILENO,
    {
        Self::from_fd(LISTENSOCK_FILENO)
    }

    /// A handle bound to the given descriptor.
    pub fn from_fd(raw_fd: i32) -> (t: Self)
        ensures
            t.fd() == raw_fd,
    {
        Transport { inner: raw_fd }
    }

    /// The descriptor on which the caller makes the system calls.
    pub fn as_raw_fd(&self) -> (fd: i32)
        ensures
            fd == self.fd(),
    {
        self.inner
    }

    /// Classifies the answer of a peer-name query made on a descriptor.
    pub fn classify_probe(probe: &Result<PeerAddr, ProbeError>) -> (outcome: ProbeOutcome)
        ensures
            outcome == probe_outcome(*probe),
    {
        match probe {
            Err(ProbeError::Sys(code)) => {
                if errno_is_not_connected(*code) {
                    ProbeOutcome::NotConnected
                } else {
                    ProbeOutcome::Stream
                }
            },
            _ => ProbeOutcome::Stream,
        }
    }

    /// Whether the process was started with a listening socket, given the
    /// answer of the one peer-name query made on the handle's descriptor:
    /// true if the system reported "not connected", false on any other
    /// answer, success included.
    pub fn is_fastcgi(&self, probe: &Result<PeerAddr, ProbeError>) -> (b: bool)
        ensures
            b == (probe_outcome(*probe) == ProbeOutcome::NotConnected),
            probe is Ok ==> !b,
            probe == Err::<PeerAddr, ProbeError>(ProbeError::Other) ==> !b,
    {
        Self::classify_probe(probe).is_listening()
    }

    /// Turns the outcome of the system's accept on the handle's descriptor
    /// into a connection that owns the new descriptor, or into the transport
    /// error that carries the system's error code. The handle is unchanged.
    pub fn accept(&mut self, outcome: Result<i32, i32>) -> (r: Result<Socket, TransportError>)
        ensures
            final(self).fd() == old(self).fd(),
            match outcome {
                Ok(fd) => r is Ok && r->Ok_0.fd() == fd,
                Err(code) => r is Err && r->Err_0 == TransportError::Os(code),
            },
    {
        match outcome {
            Ok(fd) => Ok(Socket::from_accepted(fd)),
            Err(code) => Err(TransportError::Os(code)),
        }
    }
}

} // verus!

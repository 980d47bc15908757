//! Errors that the transport reports to its caller.

use vstd::prelude::*;

verus! {

/// Why an operation of the transport failed.
#[derive(Clone, Copy, Debug, PartialEq, Eq, Structural)]
pub enum TransportError {
    /// A system call failed; the value is the operating system's error code.
    Os(i32),
    /// The peer's address is neither a network address nor a local one, or
    /// could not be obtained.
    UnsupportedPeer,
}

impl TransportError {
    /// The operating system's error code, where the error carries one.
    pub fn raw_os_error(&self) -> (code: Option<i32>)
        ensures
            code == match *self {
                TransportError::Os(c) => Some(c),
                TransportError::UnsupportedPeer => None::<i32>,
            },
    {
        match *self {
            TransportError::Os(c) => Some(c),
            TransportError::UnsupportedPeer => None,
        }
    }

    /// What the error says, where the transport itself has words for it: a
    /// system error is described by the system.
    pub fn description(&self) -> (text: Option<&'static str>)
        ensures
            match *self {
                TransportError::Os(_) => text is None,
                TransportError::UnsupportedPeer => text is Some && text->Some_0@
                    == "Unsupported FastCGI socket"@,
            },
    {
        match *self {
            TransportError::Os(_) => None,
            TransportError::UnsupportedPeer => Some("Unsupported FastCGI socket"),
        }
    }

    /// True for the error that `Socket::peer` gives for an unrecognised peer.
    pub fn is_unsupported_peer(&self) -> (b: bool)
        ensures
            b == (*self == TransportError::UnsupportedPeer),
    {
        match *self {
            TransportError::Os(_) => false,
            TransportError::UnsupportedPeer => true,
        }
    }
}

/// The outcome of one system call that yields a count or a descriptor on
/// success and an operating-system error code on failure.
pub open spec fn lift<T>(outcome: Result<T, i32>) -> Result<T, TransportError> {
    match outcome {
        Ok(v) => Ok(v),
        Err(code) => Err(TransportError::Os(code)),
    }
}

} // verus!

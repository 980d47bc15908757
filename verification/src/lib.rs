//! Connection transport for a server that is handed its listening socket by a
//! supervisor.
//!
//! The library holds every decision of the transport: how a probe of the
//! inherited descriptor selects the protocol mode, what an accepted descriptor
//! becomes, how a peer is named, and the order of the half-close, drain and
//! close steps by which a connection is released. The system calls themselves
//! are made by the caller, who hands their outcomes in as plain values.

pub mod error;
pub mod laws;
pub mod peer;
pub mod socket;
pub mod sys;
pub mod teardown;
pub mod transport;

pub use error::TransportError;
pub use peer::{InetPeer, PeerAddr, ProbeError, ProbeOutcome};
pub use socket::Socket;
pub use teardown::{Action, Phase, Teardown};
pub use transport::{Transport, LISTENSOCK_FILENO};

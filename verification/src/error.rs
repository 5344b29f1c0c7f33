//! The ways in which the relay refuses or gives up.

use vstd::prelude::*;

verus! {

/// Why an operation of the relay did not go through.
#[derive(Debug, Clone, Copy, PartialEq, Eq, Structural)]
pub enum RelayError {
    /// The registry was full when the connection arrived.
    AdmissionRejected,
    /// The client sent ten lines, none of which declared an identity.
    HandshakeTimeout,
    /// The connection closed before the client had declared an identity.
    Disconnected,
    /// A private message was addressed to an identity that is not
    /// registered.
    ParticipantNotFound,
    /// Reading from a channel failed.
    TransportError,
    /// A datagram did not hold text.
    MalformedDatagram,
}

} // verus!

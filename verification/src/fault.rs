//! Faults of the session transport, and which of them are ordinary closures.

use vstd::prelude::*;

verus! {

/// What went wrong on the transport of one session.
#[derive(Clone, Copy, Debug, PartialEq, Eq, Structural)]
pub enum TransportFault {
    /// The peer closed the connection.
    ConnectionClosed,
    /// The connection was used after it had been closed.
    AlreadyClosed,
    /// Reading from or writing to the connection failed.
    Io,
    /// The secure channel under the connection failed.
    Tls,
    /// A message did not fit the configured limits.
    Capacity,
    /// The peer violated the session protocol.
    Protocol,
    /// The outgoing buffer is full.
    WriteBufferFull,
    /// A text message was not valid UTF-8.
    Utf8,
    /// The peer behaved like an attacker.
    AttackAttempt,
    /// The address of the connection is invalid.
    Url,
    /// The handshake was answered with an HTTP error.
    Http,
    /// The handshake was not valid HTTP.
    HttpFormat,
}

impl TransportFault {
    /// An ordinary closure: the peer went away, broke the protocol or sent invalid text.
    pub open spec fn benign(self) -> bool {
        self is ConnectionClosed || self is Protocol || self is Utf8
    }

    /// Whether this fault is an ordinary closure, which ends the session without a report.
    pub fn is_benign(&self) -> (b: bool)
        ensures
            b == self.benign(),
    {
        match self {
            TransportFault::ConnectionClosed => true,
            TransportFault::Protocol => true,
            TransportFault::Utf8 => true,
            _ => false,
        }
    }
}

} // verus!

//! Reporting a connection attempt that gave no connection.
//!
//! An attempt, outbound or inbound, suspends until the handshake completes
//! or fails. Nothing is retried here: the caller decides.
use vstd::prelude::*;

verus! {

/// How the engine says that an attempt ended without a connection.
#[derive(Clone, Copy, Debug, PartialEq, Eq, Structural)]
pub enum ConnectionLoss {
    /// The attempt could not begin: the endpoint is stopping or full, or the
    /// name or the configuration was not usable.
    NotStarted,
    /// The peer speaks no version of the protocol that this side speaks.
    VersionMismatch,
    /// The peer broke the protocol, or the cryptographic handshake failed.
    TransportError,
    /// The peer's stack aborted the connection.
    ConnectionClosed,
    /// The peer's application closed the connection.
    ApplicationClosed,
    /// The peer no longer knows the connection.
    Reset,
    /// Nothing came from the peer within the transport's timeout.
    TimedOut,
    /// This side closed the connection.
    LocallyClosed,
}

/// A failed connection attempt.
#[derive(Debug, PartialEq, Eq)]
pub enum ConnectError {
    /// The two sides did not agree on protocol or cryptography, or the
    /// attempt ended on this side; the text says why.
    HandshakeFailed(String),
    /// No response arrived within the transport's timeout.
    ConnectionTimedOut,
    /// The remote side actively refused.
    PeerRejected,
}

/// A failed connection attempt with its reason as a sequence of characters.
pub enum ConnectErrorView {
    HandshakeFailed(Seq<char>),
    ConnectionTimedOut,
    PeerRejected,
}

impl View for ConnectError {
    type V = ConnectErrorView;

    open spec fn view(&self) -> ConnectErrorView {
        match *self {
            ConnectError::HandshakeFailed(reason) => ConnectErrorView::HandshakeFailed(reason@),
            ConnectError::ConnectionTimedOut => ConnectErrorView::ConnectionTimedOut,
            ConnectError::PeerRejected => ConnectErrorView::PeerRejected,
        }
    }
}

impl ConnectionLoss {
    /// The peer ended the attempt of its own accord.
    pub open spec fn by_peer(self) -> bool {
        self is ConnectionClosed || self is ApplicationClosed || self is Reset
    }

    /// The error that the loss becomes: a timeout stays a timeout, an end
    /// that the peer chose is a rejection, and every other loss is a failed
    /// handshake that carries the reason.
    pub open spec fn error(self, reason: Seq<char>) -> ConnectErrorView {
        if self is TimedOut {
            ConnectErrorView::ConnectionTimedOut
        } else if self.by_peer() {
            ConnectErrorView::PeerRejected
        } else {
            ConnectErrorView::HandshakeFailed(reason)
        }
    }
}

/// The error of an attempt that the engine reports lost, with the engine's
/// text as the reason.
pub fn connect_error(loss: ConnectionLoss, reason: String) -> (error: ConnectError)
    ensures
        error@ == loss.error(reason@),
{
    match loss {
        ConnectionLoss::TimedOut => ConnectError::ConnectionTimedOut,
        ConnectionLoss::ConnectionClosed => ConnectError::PeerRejected,
        ConnectionLoss::ApplicationClosed => ConnectError::PeerRejected,
        ConnectionLoss::Reset => ConnectError::PeerRejected,
        ConnectionLoss::NotStarted => ConnectError::HandshakeFailed(reason),
        ConnectionLoss::VersionMismatch => ConnectError::HandshakeFailed(reason),
        ConnectionLoss::TransportError => ConnectError::HandshakeFailed(reason),
        ConnectionLoss::LocallyClosed => ConnectError::HandshakeFailed(reason),
    }
}

} // verus!

//! Failure taxonomy of the tunnel core. The variants keep "the peer said
//! goodbye" distinguishable from "the link is no longer trusted" and from
//! "the network broke".

use vstd::prelude::*;

verus! {

/// Classified failures surfaced by the tunnel core.
#[derive(Clone, Copy, Debug, PartialEq, Eq, Structural)]
pub enum TunnelError {
    /// The liveness window was exceeded: too many probes are
    /// unacknowledged. No network failure occurred; the link is no longer
    /// trusted.
    PeerUnresponsive,
    /// The peer sent a close frame: graceful termination, not a defect.
    PeerClosed,
    /// A physical read or write failed mid-session.
    ConnectionAborted,
}

impl TunnelError {
    /// A short human-readable name for the failure class.
    pub fn describe(&self) -> (r: &'static str)
        ensures
            *self is PeerUnresponsive ==> r@ == "peer unresponsive: no pong received"@,
            *self is PeerClosed ==> r@ == "peer closed the websocket"@,
            *self is ConnectionAborted ==> r@ == "websocket connection aborted"@,
    {
        match self {
            TunnelError::PeerUnresponsive => "peer unresponsive: no pong received",
            TunnelError::PeerClosed => "peer closed the websocket",
            TunnelError::ConnectionAborted => "websocket connection aborted",
        }
    }
}

} // verus!

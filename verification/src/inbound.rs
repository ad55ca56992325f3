//! Inbound side of the tunnel: classification of received protocol frames.
//!
//! The read loop that pulls frames off the physical connection is
//! asynchronous and lives outside this library; it hands every frame to
//! [`handle_frame`], which decides the one observable step the loop takes:
//! deliver payload to the application sink, answer a peer ping with a pong,
//! absorb an acknowledgment into the liveness tracker, or report that the
//! peer closed. Control frames never reach the application sink.

use vstd::prelude::*;

use crate::liveness::PingState;

verus! {

/// The tag of a received protocol frame.
#[derive(Clone, Copy, Debug, PartialEq, Eq, Structural)]
pub enum WsOpCode {
    Continuation,
    Text,
    Binary,
    Close,
    Ping,
    Pong,
}

impl WsOpCode {
    /// Payload frames carry application data; the others are control
    /// frames.
    pub open spec fn is_payload(self) -> bool {
        self is Continuation || self is Text || self is Binary
    }
}

/// The step a received frame makes the read loop take.
#[derive(Debug, PartialEq, Eq)]
pub enum FrameStep {
    /// Forward these application bytes to the sink and return success.
    Deliver(Vec<u8>),
    /// Answer the peer's ping: send one pong frame carrying exactly these
    /// bytes, surface nothing to the caller, and keep reading.
    ReplyPong(Vec<u8>),
    /// The acknowledgment was absorbed into the liveness tracker; surface
    /// nothing to the caller and keep reading.
    AckRecorded,
    /// The peer closed the tunnel: graceful termination, distinguishable
    /// from an I/O failure.
    PeerClosed,
}

/// Classifies one received frame and performs the tracker update an
/// acknowledgment implies. A pong frame carries its sequence number in its
/// first payload byte, so the caller hands pongs in with a non-empty
/// payload.
pub fn handle_frame(state: &mut PingState, opcode: WsOpCode, payload: Vec<u8>) -> (r: FrameStep)
    requires
        old(state).wf(),
        opcode is Pong ==> payload@.len() >= 1,
    ensures
        final(state).wf(),
        opcode.is_payload() ==> r == FrameStep::Deliver(payload) && *final(state) == *old(state),
        opcode is Close ==> r == FrameStep::PeerClosed && *final(state) == *old(state),
        opcode is Ping ==> r == FrameStep::ReplyPong(payload) && *final(state) == *old(state),
        opcode is Pong ==> r == FrameStep::AckRecorded
            && *final(state) == old(state).after_pong(payload@[0]),
{
    match opcode {
        WsOpCode::Continuation | WsOpCode::Text | WsOpCode::Binary => FrameStep::Deliver(payload),
        WsOpCode::Close => FrameStep::PeerClosed,
        WsOpCode::Ping => FrameStep::ReplyPong(payload),
        WsOpCode::Pong => {
            let seq = payload[0];
            state.set_pong_seq(seq);
            FrameStep::AckRecorded
        },
    }
}

} // verus!

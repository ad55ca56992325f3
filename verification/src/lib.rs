//! Client-side transport core of a byte-stream tunnel multiplexed over a
//! single WebSocket connection.
//!
//! The verified core covers the liveness (ping/pong) state machine, the
//! adaptive staging buffer of the outbound channel, the classification of
//! inbound frames, and the construction of the upgrade request with its
//! header-merge rules. The asynchronous plumbing that drives the physical
//! connection lives outside this library.

pub mod errors;
pub mod handshake;
pub mod inbound;
pub mod liveness;
pub mod outbound;

pub use errors::TunnelError;
pub use handshake::Header;
pub use handshake::UpgradeRequest;
pub use inbound::FrameStep;
pub use inbound::WsOpCode;
pub use liveness::PingState;
pub use outbound::StagingBuffer;

use wstunnel::inbound::handle_frame;
use wstunnel::outbound::{MAX_PACKET_LENGTH, MAX_STAGING_CAPACITY};
use wstunnel::{FrameStep, PingState, StagingBuffer, TunnelError, WsOpCode};

#[test]
fn new_buffer_starts_empty_at_one_packet_capacity() {
    let buf = StagingBuffer::new();
    assert_eq!(buf.cap, MAX_PACKET_LENGTH);
    assert_eq!(buf.contents().len(), 0);
    assert_eq!(buf.remaining(), MAX_PACKET_LENGTH);
}

#[test]
fn append_stages_bytes_in_order() {
    let mut buf = StagingBuffer::new();
    buf.append(&[1, 2, 3]);
    buf.append(&[4, 5]);
    assert_eq!(buf.contents().as_slice(), &[1, 2, 3, 4, 5]);
    assert_eq!(buf.remaining(), MAX_PACKET_LENGTH - 5);
}

#[test]
fn saturated_flush_grows_capacity_by_a_quarter() {
    let mut buf = StagingBuffer::new();
    let data = vec![7u8; MAX_PACKET_LENGTH];
    buf.append(&data);
    assert_eq!(buf.remaining(), 0);
    buf.complete_flush();
    assert_eq!(buf.cap, MAX_PACKET_LENGTH + MAX_PACKET_LENGTH / 4);
    assert_eq!(buf.cap, 81920);
    assert_eq!(buf.contents().len(), 0);
}

#[test]
fn unsaturated_flush_keeps_capacity() {
    let mut buf = StagingBuffer::new();
    buf.append(&[1, 2, 3]);
    buf.complete_flush();
    assert_eq!(buf.cap, MAX_PACKET_LENGTH);
    assert_eq!(buf.contents().len(), 0);
}

#[test]
fn growth_is_capped_at_the_ceiling() {
    // a saturated buffer whose grown capacity would pass the ceiling
    let near_cap = 30_000_000;
    let mut buf = StagingBuffer {
        data: vec![0u8; near_cap],
        cap: near_cap,
    };
    buf.complete_flush();
    assert_eq!(buf.cap, MAX_STAGING_CAPACITY);

    // a buffer already at the ceiling never grows further
    let mut buf = StagingBuffer {
        data: vec![0u8; MAX_STAGING_CAPACITY],
        cap: MAX_STAGING_CAPACITY,
    };
    buf.complete_flush();
    assert_eq!(buf.cap, MAX_STAGING_CAPACITY);
}

#[test]
fn payload_frames_are_delivered_unchanged() {
    let mut state = PingState::new();
    for opcode in [WsOpCode::Continuation, WsOpCode::Text, WsOpCode::Binary] {
        let step = handle_frame(&mut state, opcode, vec![10, 20, 30]);
        assert_eq!(step, FrameStep::Deliver(vec![10, 20, 30]));
        assert_eq!(state.ping_seq, 0);
        assert_eq!(state.pong_seq, 0);
    }
}

#[test]
fn ping_is_answered_with_one_pong_and_never_reaches_the_sink() {
    let mut state = PingState::new();
    let step = handle_frame(&mut state, WsOpCode::Ping, vec![42]);
    // one pong, echoing the same single-byte payload; nothing delivered
    assert_eq!(step, FrameStep::ReplyPong(vec![42]));
    // the tracker is untouched by a peer-initiated ping
    assert_eq!(state.ping_seq, 0);
    assert_eq!(state.pong_seq, 0);
}

#[test]
fn pong_updates_the_tracker_once_and_never_reaches_the_sink() {
    let mut state = PingState::new();
    state.ping_inc();
    state.ping_inc();
    let step = handle_frame(&mut state, WsOpCode::Pong, vec![1]);
    assert_eq!(step, FrameStep::AckRecorded);
    assert_eq!(state.pong_seq, 1);
    // a duplicate pong is absorbed without a second update
    let step = handle_frame(&mut state, WsOpCode::Pong, vec![1]);
    assert_eq!(step, FrameStep::AckRecorded);
    assert_eq!(state.pong_seq, 1);
}

#[test]
fn close_yields_peer_closed_distinct_from_io_failure() {
    let mut state = PingState::new();
    let step = handle_frame(&mut state, WsOpCode::Close, vec![]);
    assert_eq!(step, FrameStep::PeerClosed);
    assert!(!matches!(step, FrameStep::Deliver(_)));
    // the error classes remain distinguishable
    assert_ne!(TunnelError::PeerClosed, TunnelError::ConnectionAborted);
    assert_ne!(
        TunnelError::PeerClosed.describe(),
        TunnelError::ConnectionAborted.describe()
    );
    assert_ne!(
        TunnelError::PeerUnresponsive.describe(),
        TunnelError::ConnectionAborted.describe()
    );
}

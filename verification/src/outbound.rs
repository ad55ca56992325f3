//! Outbound side of the tunnel: the adaptively sized staging buffer that
//! accumulates application bytes until they are flushed as one binary
//! frame, and the decision logic for emitting a liveness probe.
//!
//! The physical frame sends are asynchronous and live outside this library;
//! the functions here decide what to send and how the buffer and the
//! liveness counters change around a send.

use vstd::prelude::*;

use crate::errors::TunnelError;
use crate::liveness::PingState;

verus! {

/// Initial staging capacity: one maximum protocol frame payload.
pub const MAX_PACKET_LENGTH: usize = 65536;

/// Hard ceiling on the staging capacity, to bound memory growth while
/// staying under the protocol's default maximum frame size.
pub const MAX_STAGING_CAPACITY: usize = 33554432;

/// Accumulates outbound application bytes up to a logical capacity that
/// grows by a quarter whenever a flush finds the buffer saturated, and is
/// capped at [`MAX_STAGING_CAPACITY`].
pub struct StagingBuffer {
    /// Bytes staged since the last flush.
    pub data: Vec<u8>,
    /// Logical capacity: how many bytes may be staged before a flush.
    pub cap: usize,
}

/// Capacity after a flush that found `len` bytes staged under capacity
/// `cap`: saturation grows the capacity by a quarter, capped at the
/// ceiling; otherwise the capacity is kept.
pub open spec fn grown_cap(cap: int, len: int) -> int {
    if len == cap && cap < MAX_STAGING_CAPACITY {
        if cap + cap / 4 <= MAX_STAGING_CAPACITY {
            cap + cap / 4
        } else {
            MAX_STAGING_CAPACITY as int
        }
    } else {
        cap
    }
}

impl StagingBuffer {
    /// Well-formedness: the staged bytes fit the logical capacity, which
    /// stays between its initial value and the hard ceiling.
    pub open spec fn wf(self) -> bool {
        self.data@.len() <= self.cap
            && MAX_PACKET_LENGTH <= self.cap
            && self.cap <= MAX_STAGING_CAPACITY
    }

    /// An empty buffer with the initial capacity.
    pub fn new() -> (s: Self)
        ensures
            s.data@ == Seq::<u8>::empty(),
            s.cap == MAX_PACKET_LENGTH,
            s.wf(),
    {
        Self { data: Vec::new(), cap: MAX_PACKET_LENGTH }
    }

    /// How many more bytes may be staged before the buffer is saturated.
    pub fn remaining(&self) -> (r: usize)
        requires
            self.wf(),
        ensures
            r == self.cap - self.data@.len(),
    {
        self.cap - self.data.len()
    }

    /// Stages `bytes` after the bytes already accumulated. The caller
    /// keeps the total within the logical capacity.
    pub fn append(&mut self, bytes: &[u8])
        requires
            old(self).wf(),
            old(self).data@.len() + bytes@.len() <= old(self).cap,
        ensures
            final(self).data@ == old(self).data@ + bytes@,
            final(self).cap == old(self).cap,
            final(self).wf(),
    {
        let mut i: usize = 0;
        while i < bytes.len()
            invariant
                i <= bytes@.len(),
                self.data@ == old(self).data@ + bytes@.take(i as int),
                self.cap == old(self).cap,
                old(self).data@.len() + bytes@.len() <= old(self).cap,
            decreases bytes@.len() - i,
        {
            self.data.push(bytes[i]);
            i = i + 1;
            proof {
                assert(bytes@.take(i as int) == bytes@.take(i - 1).push(bytes@[i - 1]));
            }
        }
        proof {
            assert(bytes@.take(bytes@.len() as int) == bytes@);
        }
    }

    /// The staged bytes, in order, for the caller to send as one binary
    /// frame.
    pub fn contents(&self) -> (r: &Vec<u8>)
        ensures
            r@ == self.data@,
    {
        &self.data
    }

    /// Records that the staged bytes were sent successfully: the buffer is
    /// emptied (capacity retained), and a saturated buffer has its capacity
    /// grown by a quarter, capped at the hard ceiling.
    pub fn complete_flush(&mut self)
        requires
            old(self).wf(),
        ensures
            final(self).data@ == Seq::<u8>::empty(),
            final(self).cap == grown_cap(old(self).cap as int, old(self).data@.len() as int),
            old(self).data@.len() < old(self).cap ==> final(self).cap == old(self).cap,
            final(self).cap >= old(self).cap,
            final(self).wf(),
    {
        let read_len = self.data.len();
        self.data.clear();
        if self.cap == read_len && self.cap < MAX_STAGING_CAPACITY {
            let grown = self.cap + self.cap / 4;
            if grown <= MAX_STAGING_CAPACITY {
                self.cap = grown;
            } else {
                self.cap = MAX_STAGING_CAPACITY;
            }
        }
    }
}

/// Decides whether a liveness probe may be sent. An unhealthy tracker
/// fails with [`TunnelError::PeerUnresponsive`] and is left unchanged; a
/// healthy one records the probe and hands back the sequence byte the
/// caller must carry in the ping frame.
pub fn prepare_probe(state: &mut PingState) -> (r: Result<u8, TunnelError>)
    requires
        old(state).wf(),
    ensures
        final(state).wf(),
        !old(state).healthy() ==> r == Err::<u8, TunnelError>(TunnelError::PeerUnresponsive)
            && *final(state) == *old(state),
        old(state).healthy() ==> *final(state) == old(state).after_ping_inc()
            && r == Ok::<u8, TunnelError>(final(state).ping_seq),
{
    if !state.is_ok() {
        return Err(TunnelError::PeerUnresponsive);
    }
    state.ping_inc();
    Ok(state.ping_seq)
}

} // verus!

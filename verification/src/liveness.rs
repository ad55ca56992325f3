//! Liveness tracking for the tunnel: two bounded, wrapping sequence
//! counters (probes sent vs. acknowledgments received) answer whether the
//! peer is still responsive.
//!
//! The counters live in the 8-bit range. Acknowledgments are accepted only
//! if they advance `pong_seq` without passing `ping_seq`, so between resets
//! `pong_seq <= ping_seq` always holds and the health check can use plain
//! unsigned subtraction. Both counters are reset to zero either when the
//! probe counter would overflow, or proactively as soon as the two counters
//! are synchronized past the half-point of the range.

use vstd::prelude::*;

verus! {

/// Tracks outstanding liveness probes against received acknowledgments.
#[derive(Debug)]
pub struct PingState {
    /// Number of probes sent since the last reset, modulo the 8-bit range.
    pub ping_seq: u8,
    /// Highest acknowledgment sequence accepted since the last reset.
    pub pong_seq: u8,
    /// Tolerance window: the peer is healthy while at most this many
    /// probes are unacknowledged.
    pub max_diff: u8,
}

impl PingState {
    /// Well-formedness: acknowledgments never pass probes, and the
    /// tolerance window is the fixed design constant.
    pub open spec fn wf(self) -> bool {
        self.pong_seq <= self.ping_seq && self.max_diff == 3
    }

    /// The peer counts as responsive while the number of unacknowledged
    /// probes stays within the tolerance window.
    pub open spec fn healthy(self) -> bool {
        self.ping_seq - self.pong_seq <= self.max_diff
    }

    /// State after recording one more probe: the probe counter advances,
    /// or both counters restart from zero when it would leave the 8-bit
    /// range.
    pub open spec fn after_ping_inc(self) -> PingState {
        if self.ping_seq == 255 {
            PingState { ping_seq: 0, pong_seq: 0, ..self }
        } else {
            PingState { ping_seq: (self.ping_seq + 1) as u8, ..self }
        }
    }

    /// State after offering acknowledgment `seq`: it is accepted only if it
    /// advances `pong_seq` without passing `ping_seq`; afterwards, if the
    /// counters are synchronized past the half-point of the range, both
    /// restart from zero.
    pub open spec fn after_pong(self, seq: u8) -> PingState {
        let accepted = self.pong_seq < seq && seq <= self.ping_seq;
        let pong = if accepted {
            seq
        } else {
            self.pong_seq
        };
        if self.ping_seq == pong && self.ping_seq > 127 {
            PingState { ping_seq: 0, pong_seq: 0, ..self }
        } else {
            PingState { pong_seq: pong, ..self }
        }
    }

    /// A fresh tracker: no probes outstanding, default tolerance window.
    pub fn new() -> (s: Self)
        ensures
            s.ping_seq == 0,
            s.pong_seq == 0,
            s.max_diff == 3,
            s.wf(),
            s.healthy(),
    {
        Self { ping_seq: 0, pong_seq: 0, max_diff: 3 }
    }

    /// Health check: true iff the peer is within the tolerance window.
    pub fn is_ok(&self) -> (r: bool)
        requires
            self.wf(),
        ensures
            r == self.healthy(),
    {
        self.ping_seq - self.pong_seq <= self.max_diff
    }

    /// Records that one more probe was sent; restarts both counters when
    /// the probe counter would overflow its 8-bit range.
    pub fn ping_inc(&mut self)
        requires
            old(self).wf(),
        ensures
            *final(self) == old(self).after_ping_inc(),
            final(self).wf(),
    {
        if self.ping_seq == 255 {
            self.reset();
        } else {
            self.ping_seq = self.ping_seq + 1;
        }
    }

    /// Offers acknowledgment `seq`; stale, duplicate, or out-of-window
    /// values are ignored. Performs the proactive midpoint reset when the
    /// counters end up synchronized past half the range.
    pub fn set_pong_seq(&mut self, seq: u8)
        requires
            old(self).wf(),
        ensures
            *final(self) == old(self).after_pong(seq),
            final(self).wf(),
    {
        if seq > self.pong_seq && seq <= self.ping_seq {
            self.pong_seq = seq;
        }

        // Restart once the counters meet past half the range, so the
        // acceptance comparison above never has to reason across the wrap
        // boundary of the 8-bit counters.
        if self.ping_seq == self.pong_seq && self.ping_seq > 127 {
            self.reset();
        }
    }

    /// Restarts both counters, forfeiting in-flight acknowledgment
    /// tracking; the tolerance window is kept.
    pub fn reset(&mut self)
        ensures
            final(self).ping_seq == 0,
            final(self).pong_seq == 0,
            final(self).max_diff == old(self).max_diff,
            old(self).wf() ==> final(self).wf(),
    {
        self.ping_seq = 0;
        self.pong_seq = 0;
    }
}

/// Law: for every sequence of probe and acknowledgment recordings that
/// starts from a well-formed tracker, the acknowledgment counter never
/// exceeds the probe counter — each transition preserves well-formedness,
/// and well-formedness bounds `pong_seq` by `ping_seq`.
pub proof fn lemma_ack_never_exceeds_probe(s: PingState, seq: u8)
    requires
        s.wf(),
    ensures
        s.pong_seq <= s.ping_seq,
        s.after_ping_inc().wf(),
        s.after_pong(seq).wf(),
{
}

} // verus!

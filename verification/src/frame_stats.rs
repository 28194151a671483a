//! Per-channel frame reception statistics: counts, bytes, arrival instants,
//! and sequence gaps.

use vstd::prelude::*;
use std::time::Instant;
use crate::platform::instant_now;

verus! {

/// Frame reception statistics.
#[derive(Debug)]
pub struct FrameStats {
    /// Number of frames recorded.
    pub frames_received: u64,
    /// Payload bytes across all recorded frames.
    pub bytes_received: u64,
    /// Instant of the first record, if any.
    pub first_frame_time: Option<Instant>,
    /// Instant of the latest record, if any.
    pub last_frame_time: Option<Instant>,
    /// Sequence number of the latest record, if any.
    pub last_seq: Option<u32>,
    /// Number of frames missing between recorded sequence numbers.
    pub gaps: u64,
}

/// Frames missing between the previous sequence number and `seq`: the
/// numbers strictly between them when `seq` jumps forward by more than one,
/// otherwise none (wrap-around is not tracked; after `u32::MAX` only 0 may
/// follow).
pub open spec fn missing_between(last: Option<u32>, seq: u32) -> int {
    match last {
        Some(l) => {
            let next = if l == u32::MAX {
                0
            } else {
                l + 1
            };
            if seq > next {
                seq - l - 1
            } else {
                0
            }
        },
        None => 0,
    }
}

impl FrameStats {
    /// Empty statistics.
    pub fn new() -> (s: FrameStats)
        ensures
            s.frames_received == 0,
            s.bytes_received == 0,
            s.first_frame_time is None,
            s.last_frame_time is None,
            s.last_seq is None,
            s.gaps == 0,
    {
        FrameStats {
            frames_received: 0,
            bytes_received: 0,
            first_frame_time: None,
            last_frame_time: None,
            last_seq: None,
            gaps: 0,
        }
    }

    /// Record a frame that arrived at `now` with sequence number `seq` and
    /// `bytes` payload bytes.
    pub fn record_at(&mut self, seq: u32, bytes: usize, now: Instant)
        requires
            old(self).last_seq == Some(u32::MAX) ==> seq == 0,
            old(self).frames_received < u64::MAX,
            old(self).bytes_received + bytes <= u64::MAX,
            old(self).gaps + missing_between(old(self).last_seq, seq) <= u64::MAX,
        ensures
            final(self).frames_received == old(self).frames_received + 1,
            final(self).bytes_received == old(self).bytes_received + bytes,
            final(self).gaps == old(self).gaps + missing_between(old(self).last_seq, seq),
            final(self).last_seq == Some(seq),
            final(self).last_frame_time == Some(now),
            final(self).first_frame_time == (match old(self).first_frame_time {
                Some(t) => Some(t),
                None => Some(now),
            }),
    {
        if self.first_frame_time.is_none() {
            self.first_frame_time = Some(now);
        }
        self.last_frame_time = Some(now);
        match self.last_seq {
            Some(last) => {
                if seq > last.wrapping_add(1) {
                    self.gaps = self.gaps + (seq - last - 1) as u64;
                }
            },
            None => {},
        }
        self.last_seq = Some(seq);
        self.frames_received = self.frames_received + 1;
        self.bytes_received = self.bytes_received + bytes as u64;
    }

    /// Record a frame received now: the instant read once is the latest
    /// frame time, and the first frame time too when there was none.
    pub fn record(&mut self, seq: u32, bytes: usize)
        requires
            old(self).last_seq == Some(u32::MAX) ==> seq == 0,
            old(self).frames_received < u64::MAX,
            old(self).bytes_received + bytes <= u64::MAX,
            old(self).gaps + missing_between(old(self).last_seq, seq) <= u64::MAX,
        ensures
            final(self).frames_received == old(self).frames_received + 1,
            final(self).bytes_received == old(self).bytes_received + bytes,
            final(self).gaps == old(self).gaps + missing_between(old(self).last_seq, seq),
            final(self).last_seq == Some(seq),
            final(self).last_frame_time is Some,
            old(self).first_frame_time is Some ==> final(self).first_frame_time
                == old(self).first_frame_time,
            old(self).first_frame_time is None ==> final(self).first_frame_time
                == final(self).last_frame_time,
            final(self).first_frame_time is Some,
    {
        let now = instant_now();
        self.record_at(seq, bytes, now);
    }
}

/// Recording consecutive sequence numbers never counts a gap.
pub proof fn lemma_sequential_no_gap(last: u32)
    requires
        last < u32::MAX,
    ensures
        missing_between(Some(last), (last + 1) as u32) == 0,
{
}

/// How many frames a new sequence number reports missing: after `last`,
/// a number `seq` more than one ahead leaves exactly `seq - last - 1`
/// frames unseen (one lost frame counts as one); the next number, a repeat
/// or an older number leaves none; so does a first frame, and so does 0
/// after `u32::MAX` (the only number that may follow it).
pub proof fn lemma_gap_count(last: u32, seq: u32)
    ensures
        last < 4294967295 && seq > last + 1 ==> missing_between(Some(last), seq) == seq - last - 1,
        last < 4294967295 && seq <= last + 1 ==> missing_between(Some(last), seq) == 0,
        missing_between(Some(4294967295u32), 0) == 0,
        missing_between(None, seq) == 0,
        last < 4294967294 ==> missing_between(Some(last), (last + 2) as u32) == 1,
{
}

} // verus!

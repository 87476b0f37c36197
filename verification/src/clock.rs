//! The consumer-side playback clock.
//!
//! The presentation loop owns this clock, not the decode loop. The first
//! observed frame fixes a baseline pair of stream time and wall time; every
//! later frame's ideal presentation instant is the baseline instant plus the
//! stream time elapsed since the baseline timestamp. A frame ahead of
//! schedule is scheduled for its instant; one on or behind schedule is
//! presented immediately, and the caller keeps polling without delay rather
//! than replaying back-catalog frames faster than real time.

use vstd::prelude::*;

verus! {

/// The fixed baseline of one session: the first observed stream timestamp
/// and the wall instant of that observation, both in microseconds.
#[derive(Clone, Copy, PartialEq, Eq, Structural, Debug)]
pub struct ClockBase {
    pub stream_ts_us: u64,
    pub wall_us: u64,
}

/// What the caller should do with the frame just observed.
#[derive(Clone, Copy, PartialEq, Eq, Structural, Debug)]
pub enum ClockDecision {
    /// On or behind schedule: present immediately and poll on without delay.
    PresentNow,
    /// Ahead of schedule: schedule the next presentation attempt for
    /// `target_us` and do not busy-poll in the meantime.
    WaitUntil { target_us: u64 },
}

/// Ideal presentation instant for stream timestamp `t_us`: the wall baseline
/// plus the stream time elapsed since the baseline timestamp. The formula
/// presumes non-decreasing timestamps; an earlier one clamps to the baseline
/// instant itself, and an instant beyond the representable range clamps to
/// the largest instant.
pub open spec fn spec_target_wall_us(base: ClockBase, t_us: u64) -> u64 {
    let ideal = base.wall_us + (if t_us >= base.stream_ts_us {
        t_us - base.stream_ts_us
    } else {
        0
    });
    if ideal <= u64::MAX {
        ideal as u64
    } else {
        u64::MAX
    }
}

pub fn target_wall_us(base: ClockBase, t_us: u64) -> (r: u64)
    ensures
        r == spec_target_wall_us(base, t_us),
{
    let delta: u64 = if t_us >= base.stream_ts_us {
        t_us - base.stream_ts_us
    } else {
        0
    };
    let ideal: u128 = base.wall_us as u128 + delta as u128;
    if ideal <= u64::MAX as u128 {
        ideal as u64
    } else {
        u64::MAX
    }
}

/// Consumer-side pacing state: unset until the first frame arrives, then
/// fixed for the whole session.
pub struct PlaybackClock {
    base: Option<ClockBase>,
}

impl PlaybackClock {
    /// The fixed session baseline, once the first frame has been observed.
    pub closed spec fn baseline(self) -> Option<ClockBase> {
        self.base
    }

    pub fn new() -> (r: PlaybackClock)
        ensures
            r.baseline() is None,
    {
        PlaybackClock { base: None }
    }

    /// Pacing decision for a newly observed frame with stream timestamp
    /// `t_us` at wall instant `now_us`. The first frame fixes the baseline
    /// and is presented immediately; a later frame is presented at its ideal
    /// instant when that is still ahead, and immediately when the caller is
    /// behind schedule.
    pub fn on_frame(&mut self, t_us: u64, now_us: u64) -> (d: ClockDecision)
        ensures
            match old(self).baseline() {
                None => {
                    &&& final(self).baseline() == Some(
                        ClockBase { stream_ts_us: t_us, wall_us: now_us },
                    )
                    &&& d == ClockDecision::PresentNow
                },
                Some(base) => {
                    &&& final(self).baseline() == old(self).baseline()
                    &&& d == (if spec_target_wall_us(base, t_us) > now_us {
                        ClockDecision::WaitUntil { target_us: spec_target_wall_us(base, t_us) }
                    } else {
                        ClockDecision::PresentNow
                    })
                },
            },
    {
        match self.base {
            None => {
                self.base = Some(ClockBase { stream_ts_us: t_us, wall_us: now_us });
                ClockDecision::PresentNow
            },
            Some(base) => {
                let target = target_wall_us(base, t_us);
                if target > now_us {
                    ClockDecision::WaitUntil { target_us: target }
                } else {
                    ClockDecision::PresentNow
                }
            },
        }
    }
}

} // verus!

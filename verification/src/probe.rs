//! Stream information probing, independent of playback.
//!
//! The probe opens a source only to report what it holds; the I/O lives in
//! an unverified caller, which hands the raw container values here to be
//! converted and assembled.

use vstd::prelude::*;

verus! {

/// Container-level durations are counted in these ticks per second.
pub const CONTAINER_TICKS_PER_SECOND: u32 = 1_000_000;

/// Read-only facts about a source's best video stream.
#[derive(Clone, Copy, PartialEq, Eq, Structural, Debug)]
pub struct VideoInfo {
    /// Native picture width in pixels.
    pub width: u32,
    /// Native picture height in pixels.
    pub height: u32,
    /// Total duration in microseconds, when the container declares one.
    pub duration_us: Option<i64>,
    /// Declared average frame rate, `avg_fps_num / avg_fps_den` frames per
    /// second; a zero denominator means the rate is undeclared.
    pub avg_fps_num: u32,
    /// Frame rate denominator.
    pub avg_fps_den: u32,
}

/// What [`duration_us_of`] returns: a positive raw container duration
/// converted from container ticks to microseconds; other values mean the
/// container declares no duration.
pub open spec fn spec_duration_us(raw_duration: i64) -> Option<i64> {
    if raw_duration > 0 {
        Some((raw_duration * 1_000_000 / (CONTAINER_TICKS_PER_SECOND as int)) as i64)
    } else {
        None
    }
}

pub fn duration_us_of(raw_duration: i64) -> (r: Option<i64>)
    ensures
        r == spec_duration_us(raw_duration),
{
    if raw_duration > 0 {
        let q: u128 = (raw_duration as u128) * 1_000_000 / (CONTAINER_TICKS_PER_SECOND as u128);
        proof {
            vstd::arithmetic::div_mod::lemma_div_by_multiple(raw_duration as int, 1_000_000);
        }
        assert(q == raw_duration);
        Some(q as i64)
    } else {
        None
    }
}

impl VideoInfo {
    /// Assembles the probe's report from the raw values the container gave:
    /// the native size, the duration converted to microseconds, and the
    /// declared average frame rate with an undeclared one normalized to
    /// zero over zero.
    pub fn from_raw(width: u32, height: u32, raw_duration: i64, fr_num: u32, fr_den: u32) -> (r:
        VideoInfo)
        ensures
            r == (VideoInfo {
                width,
                height,
                duration_us: spec_duration_us(raw_duration),
                avg_fps_num: if fr_num > 0 && fr_den > 0 { fr_num } else { 0 },
                avg_fps_den: if fr_num > 0 && fr_den > 0 { fr_den } else { 0 },
            }),
    {
        let declared = fr_num > 0 && fr_den > 0;
        VideoInfo {
            width,
            height,
            duration_us: duration_us_of(raw_duration),
            avg_fps_num: if declared { fr_num } else { 0 },
            avg_fps_den: if declared { fr_den } else { 0 },
        }
    }
}

} // verus!

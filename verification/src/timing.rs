//! Timestamp conversion and pacing arithmetic for the decode loop.

use vstd::prelude::*;

verus! {

/// Integer division that rounds toward zero, for positive divisors.
pub open spec fn div_trunc(a: int, b: int) -> int {
    if a >= 0 {
        a / b
    } else {
        -((-a) / b)
    }
}

/// What [`pts_to_us`] returns: `pts * tb_num * 1_000_000 / tb_den` truncated
/// toward zero, or nothing when the timebase denominator is zero or the
/// quotient does not fit a signed 64-bit microsecond count.
pub open spec fn spec_pts_to_us(pts: i64, tb_num: u32, tb_den: u32) -> Option<i64> {
    if tb_den == 0 {
        None
    } else {
        let q = div_trunc(pts * tb_num * 1_000_000, tb_den as int);
        if i64::MIN <= q <= i64::MAX {
            Some(q as i64)
        } else {
            None
        }
    }
}

/// Converts a raw codec timestamp to microseconds through the stream's
/// timebase `tb_num / tb_den`, in wide arithmetic so that no intermediate
/// product overflows.
pub fn pts_to_us(pts: i64, tb_num: u32, tb_den: u32) -> (r: Option<i64>)
    ensures
        r == spec_pts_to_us(pts, tb_num, tb_den),
{
    if tb_den == 0 {
        return None;
    }
    let neg: bool = pts < 0;
    let mag: u128 = if pts >= 0 {
        pts as u128
    } else {
        (-(pts as i128)) as u128
    };
    assert(mag <= 0x8000_0000_0000_0000u128);
    assert(mag * (tb_num as u128) <= 0x8000_0000_0000_0000u128 * 0xffff_ffffu128)
        by (nonlinear_arith)
        requires
            mag <= 0x8000_0000_0000_0000u128,
            tb_num as u128 <= 0xffff_ffffu128,
    ;
    let prod: u128 = mag * (tb_num as u128) * 1_000_000;
    let q: u128 = prod / (tb_den as u128);
    proof {
        let a = pts * tb_num * 1_000_000;
        if neg {
            assert(a == -(mag * (tb_num as int) * 1_000_000)) by (nonlinear_arith)
                requires
                    pts as int == -(mag as int),
                    a == pts * tb_num * 1_000_000,
            ;
        } else {
            assert(a == mag * (tb_num as int) * 1_000_000) by (nonlinear_arith)
                requires
                    pts as int == mag as int,
                    a == pts * tb_num * 1_000_000,
            ;
        }
        assert(q == prod as int / (tb_den as int));
    }
    if neg {
        if q <= 0x8000_0000_0000_0000u128 {
            Some((-(q as i128)) as i64)
        } else {
            None
        }
    } else {
        if q <= i64::MAX as u128 {
            Some(q as i64)
        } else {
            None
        }
    }
}

/// Timestamp given to a produced frame: a missing raw timestamp counts as
/// zero, and an undefined timebase, an unrepresentable quotient or a negative
/// quotient all yield zero.
pub open spec fn spec_frame_ts_us(pts: Option<i64>, tb_num: u32, tb_den: u32) -> u64 {
    match spec_pts_to_us(
        match pts {
            Some(p) => p,
            None => 0,
        },
        tb_num,
        tb_den,
    ) {
        Some(v) => if v >= 0 {
            v as u64
        } else {
            0
        },
        None => 0,
    }
}

pub fn frame_ts_us(pts: Option<i64>, tb_num: u32, tb_den: u32) -> (r: u64)
    ensures
        r == spec_frame_ts_us(pts, tb_num, tb_den),
{
    let p: i64 = match pts {
        Some(v) => v,
        None => 0,
    };
    match pts_to_us(p, tb_num, tb_den) {
        Some(v) => if v >= 0 {
            v as u64
        } else {
            0
        },
        None => 0,
    }
}

/// Smallest sleep used between paced pushes, so that a producer that has
/// fallen behind still never busy-loops.
pub const MIN_SLEEP_US: u64 = 1000;

/// Nominal inter-frame interval in microseconds: `fr_den / fr_num` seconds
/// for a finite source that declares an average frame rate of
/// `fr_num / fr_den` frames per second; zero (no pacing) for a live source or
/// an undeclared rate.
pub open spec fn spec_frame_interval_us(is_live: bool, fr_num: u32, fr_den: u32) -> u64 {
    if !is_live && fr_num > 0 && fr_den > 0 {
        (1_000_000 * (fr_den as int) / (fr_num as int)) as u64
    } else {
        0
    }
}

pub fn frame_interval_us(is_live: bool, fr_num: u32, fr_den: u32) -> (r: u64)
    ensures
        r == spec_frame_interval_us(is_live, fr_num, fr_den),
{
    if !is_live && fr_num > 0 && fr_den > 0 {
        (1_000_000u64 * (fr_den as u64)) / (fr_num as u64)
    } else {
        0
    }
}

/// How long to sleep after a paced push: the remainder of the nominal
/// interval not yet spent, the minimal positive sleep when the interval has
/// already passed, and nothing at all when pacing is off.
pub open spec fn spec_pacing_sleep_us(interval_us: u64, elapsed_us: u64) -> u64 {
    if interval_us == 0 {
        0
    } else if elapsed_us < interval_us {
        (interval_us - elapsed_us) as u64
    } else {
        MIN_SLEEP_US
    }
}

pub fn pacing_sleep_us(interval_us: u64, elapsed_us: u64) -> (r: u64)
    ensures
        r == spec_pacing_sleep_us(interval_us, elapsed_us),
{
    if interval_us == 0 {
        0
    } else if elapsed_us < interval_us {
        interval_us - elapsed_us
    } else {
        MIN_SLEEP_US
    }
}

} // verus!

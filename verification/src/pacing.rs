//! The paced frame clock of the encoders.
//!
//! An encoder is asked for output more often than its source has frames. The
//! clock decides when the source moves on: frame number `k` (counted from 0)
//! is due once the time since the start has reached `k` frame durations. The
//! comparison is exact: the frame rate is a ratio and time is counted in
//! nanoseconds.

use vstd::prelude::*;
use crate::y4m::FrameRate;

verus! {

/// Nanoseconds in a second.
pub const NANOS_PER_SEC: u64 = 1_000_000_000;

/// Frame number `frame` of a source with the given rate is due `elapsed`
/// nanoseconds after the start.
pub open spec fn due(rate: FrameRate, frame: int, elapsed: int) -> bool {
    elapsed * rate.num >= frame * rate.den * NANOS_PER_SEC
}

/// The smallest integer that is not below `a / b`.
pub open spec fn ceil_div(a: int, b: int) -> int {
    if a % b == 0 {
        a / b
    } else {
        a / b + 1
    }
}

/// Counts the source frames that an encoder has taken.
#[derive(Copy, Clone, Debug, PartialEq, Eq, Structural)]
pub struct FrameClock {
    /// Frame rate of the source.
    pub rate: FrameRate,
    /// Number of frames taken so far.
    pub frame_cnt: u32,
    /// Time of the last frame taken, in nanoseconds since the start.
    pub last_frame_time: u64,
}

impl FrameClock {
    /// Every frame taken so far was due when it was taken.
    pub open spec fn wf(&self) -> bool {
        self.frame_cnt > 0 ==> due(self.rate, self.frame_cnt - 1, self.last_frame_time as int)
    }

    /// A clock that has taken no frame.
    pub fn new(rate: FrameRate) -> (clock: FrameClock)
        ensures
            clock == (FrameClock { rate, frame_cnt: 0, last_frame_time: 0 }),
            clock.wf(),
    {
        FrameClock { rate, frame_cnt: 0, last_frame_time: 0 }
    }

    /// Tells whether the next frame is due `elapsed` nanoseconds after the
    /// start, and counts it if so. The count stops at `u32::MAX`.
    pub fn tick(&mut self, elapsed: u64) -> (advanced: bool)
        requires
            old(self).wf(),
        ensures
            final(self).wf(),
            advanced == (old(self).frame_cnt < u32::MAX && due(
                old(self).rate,
                old(self).frame_cnt as int,
                elapsed as int,
            )),
            *final(self) == if advanced {
                FrameClock {
                    rate: old(self).rate,
                    frame_cnt: (old(self).frame_cnt + 1) as u32,
                    last_frame_time: elapsed,
                }
            } else {
                *old(self)
            },
    {
        if self.frame_cnt == u32::MAX {
            return false;
        }
        assert(0 <= elapsed as int * self.rate.num as int <= 0xffff_ffff_ffff_ffff
            * 0xffff_ffff_ffff_ffff) by (nonlinear_arith)
            requires
                0 <= elapsed <= 0xffff_ffff_ffff_ffff,
                0 <= self.rate.num <= 0xffff_ffff_ffff_ffff,
        ;
        assert(0 <= self.frame_cnt as int * self.rate.den as int <= 0xffff_ffff
            * 0xffff_ffff_ffff_ffff) by (nonlinear_arith)
            requires
                0 <= self.frame_cnt <= 0xffff_ffff,
                0 <= self.rate.den <= 0xffff_ffff_ffff_ffff,
        ;
        let have: u128 = elapsed as u128 * self.rate.num as u128;
        let frames: u128 = self.frame_cnt as u128 * self.rate.den as u128;
        assert(frames * 1_000_000_000 <= 0xffff_ffff * 0xffff_ffff_ffff_ffff * 1_000_000_000);
        let need: u128 = frames * 1_000_000_000;
        if have >= need {
            self.frame_cnt = self.frame_cnt + 1;
            self.last_frame_time = elapsed;
            true
        } else {
            false
        }
    }
}

/// A run of `n` nanoseconds takes at most one frame more than the frames
/// that the rate gives for that time: `ceil(n * fps) + 1`.
pub proof fn lemma_paced_reading(clock: FrameClock, n: nat)
    requires
        clock.wf(),
        clock.rate.den > 0,
        clock.last_frame_time <= n,
    ensures
        clock.frame_cnt <= ceil_div(
            n * clock.rate.num,
            clock.rate.den * NANOS_PER_SEC,
        ) + 1,
{
    let a = n as int * clock.rate.num as int;
    let b = clock.rate.den as int * NANOS_PER_SEC as int;
    if clock.frame_cnt > 0 {
        let k = clock.frame_cnt as int - 1;
        let t = clock.last_frame_time as int;
        assert(t * clock.rate.num <= a) by (nonlinear_arith)
            requires
                0 <= t <= n,
                0 <= clock.rate.num,
                a == n * clock.rate.num,
        ;
        assert(k * clock.rate.den * NANOS_PER_SEC == k * b) by (nonlinear_arith)
            requires
                b == clock.rate.den * NANOS_PER_SEC,
        ;
        assert(k * b <= a);
        assert(b > 0);
        vstd::arithmetic::div_mod::lemma_fundamental_div_mod(a, b);
        vstd::arithmetic::div_mod::lemma_mod_bound(a, b);
        assert(k <= a / b) by (nonlinear_arith)
            requires
                k * b <= a,
                b > 0,
                a == b * (a / b) + a % b,
                0 <= a % b < b,
        ;
    } else {
        assert(a >= 0) by (nonlinear_arith)
            requires
                a == n * clock.rate.num,
                n >= 0,
                clock.rate.num >= 0,
        ;
        vstd::arithmetic::div_mod::lemma_fundamental_div_mod(a, b);
        vstd::arithmetic::div_mod::lemma_mod_bound(a, b);
        assert(0 <= a / b) by (nonlinear_arith)
            requires
                a >= 0,
                b > 0,
                a == b * (a / b) + a % b,
                0 <= a % b < b,
        ;
    }
}

/// The presentation time after `pts`; it stays at the largest value.
pub open spec fn next_pts(pts: i64) -> i64 {
    if pts < i64::MAX {
        (pts + 1) as i64
    } else {
        pts
    }
}

/// The presentation time after `pts`; it stays at the largest value.
pub fn advance_pts(pts: i64) -> (r: i64)
    ensures
        r == next_pts(pts),
{
    if pts < i64::MAX {
        pts + 1
    } else {
        pts
    }
}

} // verus!

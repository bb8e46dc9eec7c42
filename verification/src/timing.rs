//! Fixed-update, variable-framerate timing.
//!
//! Time is kept in whole nanoseconds. One logic step lasts a sixtieth of a
//! second, which is no whole number of nanoseconds, so the clock keeps its
//! backlog in sixtieths of a nanosecond: in that unit a step is exactly
//! `TICKS_PER_STEP` long and nothing is ever rounded.

use vstd::prelude::*;

verus! {

/// How many logic updates one second of real time is worth.
pub const LOGIC_UPDATES_PER_SECOND: u64 = 60;

/// Nanoseconds in one second.
pub const NANOS_PER_SECOND: u64 = 1_000_000_000;

/// Length of one logic step, in sixtieths of a nanosecond.
pub const TICKS_PER_STEP: u64 = 1_000_000_000;

/// The backlog that `elapsed_nanos` of real time adds to a clock that is
/// `lag` ticks behind.
pub open spec fn backlog(lag: u64, elapsed_nanos: u64) -> int {
    lag as int + LOGIC_UPDATES_PER_SECOND as int * elapsed_nanos as int
}

/// How far the simulation is behind real time.
///
/// Between two calls the clock is always less than one step behind.
#[derive(Clone, Copy, Debug)]
pub struct FixedStepClock {
    lag: u64,
}

impl FixedStepClock {
    #[verifier::type_invariant]
    spec fn owes_less_than_a_step(self) -> bool {
        self.lag < TICKS_PER_STEP
    }

    /// The backlog, in sixtieths of a nanosecond.
    pub closed spec fn lag(self) -> u64 {
        self.lag
    }

    /// A clock that is not behind at all.
    pub fn new() -> (clock: Self)
        ensures
            clock.lag() == 0,
    {
        FixedStepClock { lag: 0 }
    }

    /// The backlog, in sixtieths of a nanosecond: always less than one step.
    pub fn lag_ticks(&self) -> (ticks: u64)
        ensures
            ticks == self.lag(),
            ticks < TICKS_PER_STEP,
    {
        proof {
            use_type_invariant(self);
        }
        self.lag
    }

    /// Adds `elapsed_nanos` of real time to the backlog and takes out of it
    /// every whole step it then holds. The result is the number of logic
    /// steps to run before the next frame is drawn.
    pub fn advance(&mut self, elapsed_nanos: u64) -> (steps: u64)
        ensures
            steps as int == backlog(old(self).lag(), elapsed_nanos) / (TICKS_PER_STEP as int),
            final(self).lag() as int == backlog(old(self).lag(), elapsed_nanos) % (
            TICKS_PER_STEP as int),
    {
        proof {
            use_type_invariant(&*self);
        }
        let step: u128 = TICKS_PER_STEP as u128;
        let rate: u128 = LOGIC_UPDATES_PER_SECOND as u128;
        let elapsed: u128 = elapsed_nanos as u128;
        assert(rate * elapsed <= 60 * 0xffff_ffff_ffff_ffff) by (nonlinear_arith)
            requires
                rate == 60,
                elapsed <= 0xffff_ffff_ffff_ffff,
        ;
        let total: u128 = self.lag as u128 + rate * elapsed;
        self.lag = (total % step) as u64;
        (total / step) as u64
    }
}

/// Time is never lost and never made up: the steps that `advance` orders
/// and the backlog it keeps add up to the backlog it found plus the time
/// that passed, and what it keeps is less than one step.
pub proof fn lemma_advance_conserves_time(lag: u64, elapsed_nanos: u64)
    ensures
        (backlog(lag, elapsed_nanos) / (TICKS_PER_STEP as int)) * TICKS_PER_STEP as int + backlog(
            lag,
            elapsed_nanos,
        ) % (TICKS_PER_STEP as int) == backlog(lag, elapsed_nanos),
        0 <= backlog(lag, elapsed_nanos) % (TICKS_PER_STEP as int) < TICKS_PER_STEP,
{
    let b = backlog(lag, elapsed_nanos);
    assert((b / 1_000_000_000) * 1_000_000_000 + b % 1_000_000_000 == b) by (nonlinear_arith);
}

/// The steps ordered do not depend on how time is cut into frames: two
/// frames order as many steps between them as one frame as long as both,
/// and leave the clock as far behind.
pub proof fn lemma_steps_do_not_depend_on_frames(lag: u64, first: u64, second: u64)
    requires
        first + second <= u64::MAX,
    ensures
        ({
            let step = TICKS_PER_STEP as int;
            let kept = (backlog(lag, first) % step) as u64;
            let both = (first + second) as u64;
            &&& backlog(lag, first) / step + backlog(kept, second) / step == backlog(lag, both)
                / step
            &&& backlog(kept, second) % step == backlog(lag, both) % step
        }),
{
    let step = TICKS_PER_STEP as int;
    let b1 = backlog(lag, first);
    let q = b1 / step;
    let r = b1 % step;
    let more = 60 * (second as int);
    assert(b1 == q * step + r && 0 <= r < step) by (nonlinear_arith)
        requires
            q == b1 / step,
            r == b1 % step,
            step == 1_000_000_000,
    ;
    assert(backlog(r as u64, second) == r + more);
    assert(backlog(lag, (first + second) as u64) == q * step + (r + more));
    vstd::arithmetic::div_mod::lemma_fundamental_div_mod(r + more, step);
    assert((q + (r + more) / step) * step == q * step + ((r + more) / step) * step)
        by (nonlinear_arith);
    assert(0 <= (r + more) % step < step) by (nonlinear_arith)
        requires
            step == 1_000_000_000,
    ;
    vstd::arithmetic::div_mod::lemma_fundamental_div_mod_converse(
        q * step + (r + more),
        step,
        q + (r + more) / step,
        (r + more) % step,
    );
}

/// A clock that is not behind and is advanced by `seconds` whole seconds
/// orders exactly sixty steps for each of them and is not behind afterwards.
pub proof fn lemma_whole_seconds(seconds: u64)
    requires
        seconds as int * NANOS_PER_SECOND as int <= u64::MAX,
    ensures
        backlog(0, (seconds * NANOS_PER_SECOND) as u64) / (TICKS_PER_STEP as int)
            == LOGIC_UPDATES_PER_SECOND * seconds,
        backlog(0, (seconds * NANOS_PER_SECOND) as u64) % (TICKS_PER_STEP as int) == 0,
{
    let s = seconds as int;
    assert(60 * (s * 1_000_000_000) == (60 * s) * 1_000_000_000) by (nonlinear_arith);
    assert(((60 * s) * 1_000_000_000) / 1_000_000_000 == 60 * s) by (nonlinear_arith);
    assert(((60 * s) * 1_000_000_000) % 1_000_000_000 == 0) by (nonlinear_arith);
}

/// What the meter saw between two samples: how many frames were drawn, and
/// how much metered time had gathered when the sample was taken.
#[derive(Clone, Copy, Debug, PartialEq, Eq, Structural)]
pub struct FrameRateInfo {
    /// Frames drawn since the previous sample.
    pub frame_count: u32,
    /// Metered time at the moment of the sample, in nanoseconds.
    pub elapsed_nanos: u64,
}

/// Average frames per second over a sample, in hundredths of a frame;
/// zero for a sample that covers no time.
pub open spec fn hundredths_per_second(frame_count: u32, elapsed_nanos: u64) -> int {
    if elapsed_nanos == 0 {
        0
    } else {
        (frame_count as int * 100 * NANOS_PER_SECOND as int) / (elapsed_nanos as int)
    }
}

/// Time spent on one frame when `frame_count` frames share one second, in
/// nanoseconds; zero where no frame was drawn.
pub open spec fn nanos_of_one_frame(frame_count: u32) -> int {
    if frame_count == 0 {
        0
    } else {
        NANOS_PER_SECOND as int / (frame_count as int)
    }
}

impl FrameRateInfo {
    /// The sample of a meter that has seen nothing yet.
    pub fn new() -> (info: Self)
        ensures
            info.frame_count == 0,
            info.elapsed_nanos == 0,
    {
        FrameRateInfo { frame_count: 0, elapsed_nanos: 0 }
    }

    /// Average frames per second, in hundredths of a frame.
    pub fn frames_per_second_hundredths(&self) -> (rate: u128)
        ensures
            rate as int == hundredths_per_second(self.frame_count, self.elapsed_nanos),
    {
        if self.elapsed_nanos == 0 {
            0
        } else {
            let frames: u128 = self.frame_count as u128;
            let scaled: u128 = frames * 100_000_000_000u128;
            assert(frames * 100 * 1_000_000_000 == scaled) by (nonlinear_arith)
                requires
                    scaled == frames * 100_000_000_000u128,
            ;
            scaled / (self.elapsed_nanos as u128)
        }
    }

    /// Time spent on one frame, in nanoseconds, taking the sample to cover
    /// one second.
    pub fn nanos_per_frame(&self) -> (nanos: u64)
        ensures
            nanos as int == nanos_of_one_frame(self.frame_count),
    {
        if self.frame_count == 0 {
            0
        } else {
            NANOS_PER_SECOND / (self.frame_count as u64)
        }
    }
}

/// Counts frames and metered time, and gives a sample whenever a full second
/// has gathered.
#[derive(Clone, Copy, Debug)]
pub struct FrameRateMeter {
    elapsed_nanos: u64,
    frame_count: u32,
}

/// `a + b`, held at the largest `u64` where the sum passes it.
pub open spec fn capped_sum(a: u64, b: u64) -> u64 {
    if a as int + b as int > u64::MAX as int {
        u64::MAX
    } else {
        (a + b) as u64
    }
}

/// `n + 1`, held at the largest `u32`.
pub open spec fn capped_next(n: u32) -> u32 {
    if n == u32::MAX {
        n
    } else {
        (n + 1) as u32
    }
}

impl FrameRateMeter {
    /// Metered time that no sample has consumed yet, in nanoseconds.
    pub closed spec fn elapsed(self) -> u64 {
        self.elapsed_nanos
    }

    /// Frames counted since the last sample.
    pub closed spec fn frames(self) -> u32 {
        self.frame_count
    }

    /// A meter that has seen nothing.
    pub fn new() -> (meter: Self)
        ensures
            meter.elapsed() == 0,
            meter.frames() == 0,
    {
        FrameRateMeter { elapsed_nanos: 0, frame_count: 0 }
    }

    /// Counts one frame that took `elapsed_nanos`. Both counters stop at the
    /// largest value of their type.
    pub fn count_frame(&mut self, elapsed_nanos: u64)
        ensures
            final(self).elapsed() == capped_sum(old(self).elapsed(), elapsed_nanos),
            final(self).frames() == capped_next(old(self).frames()),
    {
        self.elapsed_nanos = if elapsed_nanos > u64::MAX - self.elapsed_nanos {
            u64::MAX
        } else {
            self.elapsed_nanos + elapsed_nanos
        };
        self.frame_count = if self.frame_count == u32::MAX {
            u32::MAX
        } else {
            self.frame_count + 1
        };
    }

    /// Once a full second has gathered the meter hands out a sample of what
    /// it counted, keeps the time that exceeds the second and starts
    /// counting frames anew. Before that it hands out nothing and stays as
    /// it is.
    pub fn sample(&mut self) -> (sample: Option<FrameRateInfo>)
        ensures
            old(self).elapsed() < NANOS_PER_SECOND ==> sample is None && *final(self) == *old(self),
            old(self).elapsed() >= NANOS_PER_SECOND ==> {
                &&& sample == Some(
                    (FrameRateInfo {
                        frame_count: old(self).frames(),
                        elapsed_nanos: old(self).elapsed(),
                    }),
                )
                &&& final(self).elapsed() == old(self).elapsed() - NANOS_PER_SECOND
                &&& final(self).frames() == 0
            },
    {
        if self.elapsed_nanos >= NANOS_PER_SECOND {
            let info = FrameRateInfo {
                frame_count: self.frame_count,
                elapsed_nanos: self.elapsed_nanos,
            };
            self.elapsed_nanos = self.elapsed_nanos - NANOS_PER_SECOND;
            self.frame_count = 0;
            Some(info)
        } else {
            None
        }
    }
}

} // verus!

//! The animation clock: a repeating timer counted in whole nanoseconds.
//!
//! The clock keeps its own state as plain integers. The arithmetic of one
//! tick is done by `bevy`'s repeating `Timer`, so that the clock fires
//! exactly when that timer does.

use bevy::time::{Timer, TimerMode};
use std::time::Duration;
use vstd::prelude::*;

verus! {

/// The clock period of a sprite that the keys steer: a fifth of a second.
pub const WALK_PERIOD: u64 = 200_000_000;

/// The clock period of a sprite that cycles through one block whatever is
/// held: three tenths of a second.
pub const CYCLE_PERIOD: u64 = 300_000_000;

/// The time on a repeating timer of the given period after `delta` more
/// nanoseconds: what is left once every whole period has been taken away.
/// A timer of period zero never keeps any time.
pub open spec fn elapsed_after(period: u64, elapsed: u64, delta: u64) -> int {
    if period == 0 {
        0
    } else {
        (elapsed + delta) % (period as int)
    }
}

/// The number of firings that a repeating timer reports for one tick of
/// `delta` nanoseconds: the whole periods in `elapsed + delta`, kept to their
/// low 32 bits. A timer of period zero reports the largest count.
pub open spec fn firings_after(period: u64, elapsed: u64, delta: u64) -> int {
    if period == 0 {
        u32::MAX as int
    } else {
        ((elapsed + delta) / (period as int)) % 0x1_0000_0000
    }
}

/// A repeating timer. It gathers the time it is ticked with and fires each
/// time a whole period has gone by, keeping the remainder for the next one.
#[derive(Clone, Copy, Debug, PartialEq, Eq, Structural)]
pub struct AnimationClock {
    /// The period, in nanoseconds.
    pub period: u64,
    /// The time gathered since the last firing, in nanoseconds.
    pub elapsed: u64,
    /// How often the clock fired during the latest tick.
    pub fired: u32,
}

/// Runs `Timer::tick` of `bevy` on a repeating timer of the given period
/// that has `elapsed` nanoseconds on it, and hands back the time left on the
/// timer with `Timer::times_finished_this_tick`.
///
/// Not proved: that the timer adds `delta` to the time on it and, once the
/// sum has reached the period, reports the quotient of sum by period cut to
/// 32 bits and keeps the remainder; and that with a period of zero it
/// reports `u32::MAX` and keeps nothing.
#[verifier::external_body]
fn timer_tick(period: u64, elapsed: u64, delta: u64) -> (r: (u64, u32))
    ensures
        r.0 == elapsed_after(period, elapsed, delta),
        r.1 == firings_after(period, elapsed, delta),
{
    let mut timer = Timer::new(Duration::from_nanos(period), TimerMode::Repeating);
    timer.set_elapsed(Duration::from_nanos(elapsed));
    timer.tick(Duration::from_nanos(delta));
    (timer.elapsed().as_nanos() as u64, timer.times_finished_this_tick())
}

impl AnimationClock {
    /// Less than one period is gathered (nothing at all where the period is
    /// zero).
    pub open spec fn wf(self) -> bool {
        if self.period == 0 {
            self.elapsed == 0
        } else {
            self.elapsed < self.period
        }
    }

    /// The clock after a tick of `delta` nanoseconds.
    pub open spec fn ticked(self, delta: u64) -> AnimationClock {
        AnimationClock {
            period: self.period,
            elapsed: elapsed_after(self.period, self.elapsed, delta) as u64,
            fired: firings_after(self.period, self.elapsed, delta) as u32,
        }
    }

    /// The clock fired during its latest tick.
    pub open spec fn has_fired(self) -> bool {
        self.fired > 0
    }

    /// A clock of the given period, in nanoseconds, with no time on it.
    pub fn new(period: u64) -> (clock: AnimationClock)
        ensures
            clock == (AnimationClock { period, elapsed: 0, fired: 0 }),
            clock.wf(),
    {
        AnimationClock { period, elapsed: 0, fired: 0 }
    }

    /// Adds `delta` nanoseconds to the clock and notes how often it fired.
    pub fn tick(&mut self, delta: u64)
        ensures
            *final(self) == old(self).ticked(delta),
            final(self).wf(),
    {
        let (elapsed, fired) = timer_tick(self.period, self.elapsed, delta);
        proof {
            lemma_ticked_in_range(self.period, self.elapsed, delta);
        }
        self.elapsed = elapsed;
        self.fired = fired;
    }

    /// Whether the clock fired during its latest tick.
    pub fn just_fired(&self) -> (b: bool)
        ensures
            b == self.has_fired(),
    {
        self.fired > 0
    }

    /// How often the clock fired during its latest tick.
    pub fn times_fired(&self) -> (n: u32)
        ensures
            n == self.fired,
    {
        self.fired
    }
}

/// What a tick leaves on the timer is less than the period, and both results
/// fit their machine types.
pub proof fn lemma_ticked_in_range(period: u64, elapsed: u64, delta: u64)
    ensures
        0 <= elapsed_after(period, elapsed, delta) <= u64::MAX,
        period > 0 ==> elapsed_after(period, elapsed, delta) < period,
        period == 0 ==> elapsed_after(period, elapsed, delta) == 0,
        0 <= firings_after(period, elapsed, delta) <= u32::MAX,
{
    if period > 0 {
        let sum = elapsed + delta;
        let p = period as int;
        assert(0 <= sum % p < p) by (nonlinear_arith)
            requires
                p > 0,
                sum >= 0,
        ;
        let q = sum / p;
        assert(0 <= q % 0x1_0000_0000 < 0x1_0000_0000) by (nonlinear_arith);
    }
}

/// A tick that does not fill the period fires nothing and keeps all the
/// time; one that fills it once and not twice fires once and keeps what is
/// over for the next period.
pub proof fn lemma_fires_once_per_period(clock: AnimationClock, delta: u64)
    requires
        clock.period > 0,
    ensures
        clock.elapsed + delta < clock.period ==> clock.ticked(delta) == (AnimationClock {
            elapsed: (clock.elapsed + delta) as u64,
            fired: 0,
            ..clock
        }),
        clock.period <= clock.elapsed + delta < 2 * clock.period ==> clock.ticked(delta) == (
        AnimationClock {
            elapsed: (clock.elapsed + delta - clock.period) as u64,
            fired: 1,
            ..clock
        }),
{
    let sum = clock.elapsed + delta;
    let p = clock.period as int;
    if sum < p {
        assert(sum / p == 0 && sum % p == sum) by (nonlinear_arith)
            requires
                0 <= sum < p,
        ;
    } else if sum < 2 * p {
        assert(sum / p == 1 && sum % p == sum - p) by (nonlinear_arith)
            requires
                p <= sum < 2 * p,
        ;
    }
}

} // verus!

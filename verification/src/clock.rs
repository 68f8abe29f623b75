//! Frame clock: wall-clock deltas scaled by an adjustable timescale and
//! accumulated into simulated time.  Instants are milliseconds, and the
//! timescale is fixed-point with `fixed::FX_ONE` meaning a factor of one.

use vstd::prelude::*;

verus! {

use vstd::arithmetic::div_mod::{lemma_div_multiples_vanish, lemma_div_of0};
use vstd::arithmetic::mul::lemma_mul_upper_bound;

/// Largest accepted instant, in milliseconds (over thirty years of runtime).
pub const TIME_LIMIT: u64 = 1000000000000;

/// Largest accepted timescale (a factor of one thousand).
pub const TIMESCALE_LIMIT: u64 = 1000000;

/// The scaled delta one tick produces from a wall-clock delta.
pub open spec fn scaled_delta(delta: int, timescale: int) -> int {
    (delta * timescale) / 1000
}

/// Accumulated time after a sequence of wall-clock deltas at a fixed
/// timescale; `tick` realizes exactly one step of this fold.
pub open spec fn time_after(time0: int, timescale: int, deltas: Seq<int>) -> int
    decreases deltas.len(),
{
    if deltas.len() == 0 {
        time0
    } else {
        time_after(time0, timescale, deltas.drop_last()) + scaled_delta(
            deltas.last(),
            timescale,
        )
    }
}

/// The plain sum of a sequence of deltas.
pub open spec fn sum(deltas: Seq<int>) -> int
    decreases deltas.len(),
{
    if deltas.len() == 0 {
        0
    } else {
        sum(deltas.drop_last()) + deltas.last()
    }
}

/// Tracks the previous instant, the scaled delta of the last tick, the
/// accumulated simulated time, and the timescale.
pub struct FrameClock {
    /// The instant recorded by the most recent tick, in milliseconds.
    pub now: u64,
    /// Scaled delta of the most recent tick.
    pub dt: u64,
    /// Accumulated scaled time over all ticks.
    pub time: u64,
    /// Fixed-point multiplier applied to wall-clock deltas; zero pauses
    /// simulated time without stopping the loop.
    pub timescale: u64,
}

impl FrameClock {
    /// Field bounds every operation preserves.
    pub open spec fn wf(self) -> bool {
        self.now <= TIME_LIMIT && self.timescale <= TIMESCALE_LIMIT
    }

    /// A clock whose epoch is the given instant, running at real time.
    pub fn new(start: u64) -> (c: FrameClock)
        requires
            start <= TIME_LIMIT,
        ensures
            c.wf(),
            c.now == start,
            c.dt == 0,
            c.time == 0,
            c.timescale == 1000,
    {
        FrameClock { now: start, dt: 0, time: 0, timescale: 1000 }
    }

    /// Replaces the timescale; takes effect from the next tick on.
    pub fn set_timescale(&mut self, timescale: u64)
        requires
            timescale <= TIMESCALE_LIMIT,
        ensures
            *final(self) == (FrameClock { timescale, ..*old(self) }),
    {
        self.timescale = timescale;
    }

    /// Advances the clock to `now`: the wall-clock delta since the previous
    /// tick is scaled by the timescale, recorded as `dt`, and added to the
    /// accumulated time.  A monotonic host clock never violates the
    /// `now >= self.now` bound, so `dt` is never negative.
    pub fn tick(&mut self, now: u64)
        requires
            old(self).wf(),
            old(self).now <= now <= TIME_LIMIT,
            old(self).time + scaled_delta(now - old(self).now, old(self).timescale as int)
                <= u64::MAX,
        ensures
            final(self).wf(),
            final(self).dt == scaled_delta(now - old(self).now, old(self).timescale as int),
            final(self).time == old(self).time + final(self).dt,
            final(self).now == now,
            final(self).timescale == old(self).timescale,
    {
        let delta: u64 = now - self.now;
        proof {
            lemma_mul_upper_bound(delta as int, TIME_LIMIT as int, self.timescale as int,
                TIMESCALE_LIMIT as int);
        }
        let scaled: u64 = delta * self.timescale;
        let dt: u64 = scaled / 1000;
        proof {
            assert(dt <= scaled);
        }
        self.dt = dt;
        self.time = self.time + dt;
        self.now = now;
    }
}

/// With the timescale at one, the accumulated time after any run of ticks is
/// the starting time plus the exact sum of the wall-clock deltas.
pub proof fn lemma_time_sums_deltas(time0: int, deltas: Seq<int>)
    requires
        forall|i: int| 0 <= i < deltas.len() ==> deltas[i] >= 0,
    ensures
        time_after(time0, 1000, deltas) == time0 + sum(deltas),
    decreases deltas.len(),
{
    if deltas.len() > 0 {
        lemma_time_sums_deltas(time0, deltas.drop_last());
        lemma_div_multiples_vanish(deltas.last(), 1000);
        assert(deltas.last() * 1000 == 1000 * deltas.last());
    }
}

/// With the timescale at zero, the accumulated time never moves, whatever
/// wall-clock time elapses.
pub proof fn lemma_time_frozen(time0: int, deltas: Seq<int>)
    ensures
        time_after(time0, 0, deltas) == time0,
    decreases deltas.len(),
{
    if deltas.len() > 0 {
        lemma_time_frozen(time0, deltas.drop_last());
        lemma_div_of0(1000);
        assert(deltas.last() * 0 == 0);
    }
}

} // verus!

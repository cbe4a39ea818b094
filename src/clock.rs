use vstd::prelude::*;
use bevy::time::{Timer, TimerMode};
use std::time::Duration;

verus! {

pub const NANOS_PER_SECOND: u64 = 1_000_000_000;

/// The most clock periods handed to the timer in one go, so that the number of
/// expiries it reports fits its `u32` count.
const CHUNK_PERIODS: u64 = 0x8000_0000;

/// The period, in whole nanoseconds and at least one, of a clock that expires
/// `fps` times a second.
pub open spec fn period_of(fps: u32) -> int {
    if fps as int > NANOS_PER_SECOND as int {
        1
    } else {
        NANOS_PER_SECOND as int / fps as int
    }
}

/// Relies on bevy's `Timer` in repeating mode: `tick` adds the delta to the
/// elapsed time and, once the duration is reached, reports how many whole
/// durations have passed and keeps the remainder as the elapsed time.
#[verifier::external_body]
fn repeating_tick(period_ns: u64, elapsed_ns: u64, delta_ns: u64) -> (r: (u64, u32))
    requires
        period_ns > 0,
        elapsed_ns < period_ns,
        (elapsed_ns + delta_ns) / (period_ns as int) <= u32::MAX,
    ensures
        r.0 == (elapsed_ns + delta_ns) % (period_ns as int),
        r.1 == (elapsed_ns + delta_ns) / (period_ns as int),
{
    let mut timer = Timer::new(Duration::from_nanos(period_ns), TimerMode::Repeating);
    timer.set_elapsed(Duration::from_nanos(elapsed_ns));
    timer.tick(Duration::from_nanos(delta_ns));
    (timer.elapsed().as_nanos() as u64, timer.times_finished_this_tick())
}

/// A repeating clock: time accumulates, and each whole period that passes is
/// one expiry.
#[derive(Clone, Copy, PartialEq, Eq, Structural, Debug)]
pub struct AnimationClock {
    period_ns: u64,
    elapsed_ns: u64,
}

impl AnimationClock {
    pub closed spec fn period(&self) -> int {
        self.period_ns as int
    }

    pub closed spec fn elapsed(&self) -> int {
        self.elapsed_ns as int
    }

    pub closed spec fn wf(&self) -> bool {
        0 < self.period_ns && self.elapsed_ns < self.period_ns && self.period_ns <= NANOS_PER_SECOND
    }

    /// The time elapsed in a well-formed clock is short of one period.
    pub proof fn lemma_phase_in_period(&self)
        requires
            self.wf(),
        ensures
            0 <= self.elapsed() < self.period(),
    {
    }

    /// A clock that expires `fps` times a second, with no time elapsed.
    pub fn from_fps(fps: u32) -> (r: Self)
        requires
            fps > 0,
        ensures
            r.wf(),
            r.period() == period_of(fps),
            r.elapsed() == 0,
    {
        let period_ns: u64 = if (fps as u64) > NANOS_PER_SECOND {
            1
        } else {
            proof {
                vstd::arithmetic::div_mod::lemma_div_is_ordered_by_denominator(
                    NANOS_PER_SECOND as int, 1, fps as int);
                vstd::arithmetic::div_mod::lemma_div_is_ordered_by_denominator(
                    NANOS_PER_SECOND as int, fps as int, NANOS_PER_SECOND as int);
            }
            NANOS_PER_SECOND / (fps as u64)
        };
        AnimationClock { period_ns, elapsed_ns: 0 }
    }

    /// The clock period, in nanoseconds.
    pub fn period_ns(&self) -> (r: u64)
        ensures
            r == self.period(),
    {
        self.period_ns
    }

    /// The time elapsed in the current period, in nanoseconds.
    pub fn elapsed_ns(&self) -> (r: u64)
        ensures
            r == self.elapsed(),
    {
        self.elapsed_ns
    }

    /// Advances the clock by `delta_ns` nanoseconds and returns how many
    /// times it expired.
    pub fn tick(&mut self, delta_ns: u64) -> (times: u64)
        requires
            old(self).wf(),
        ensures
            final(self).wf(),
            final(self).period() == old(self).period(),
            times == (old(self).elapsed() + delta_ns) / old(self).period(),
            final(self).elapsed() == (old(self).elapsed() + delta_ns) % old(self).period(),
    {
        let p = self.period_ns;
        let ghost total: int = self.elapsed_ns + delta_ns;
        let mut rest: u64 = delta_ns;
        let mut done: u64 = 0;
        let chunk: u64 = p * CHUNK_PERIODS;
        while rest > 0
            invariant
                self.wf(),
                self.period_ns == p,
                chunk == p * CHUNK_PERIODS,
                self.elapsed_ns + rest + p * done == total,
                total == old(self).elapsed() + delta_ns,
                old(self).period() == p,
                old(self).elapsed() < p,
            decreases rest,
        {
            let step: u64 = if rest > chunk { chunk } else { rest };
            proof {
                assert((self.elapsed_ns + step) / (p as int) <= u32::MAX) by {
                    vstd::arithmetic::div_mod::lemma_div_is_ordered(
                        self.elapsed_ns + step, p * (CHUNK_PERIODS + 1), p as int);
                    vstd::arithmetic::div_mod::lemma_div_multiples_vanish(
                        CHUNK_PERIODS + 1, p as int);
                    assert(p * (CHUNK_PERIODS + 1) == p * CHUNK_PERIODS + p) by (nonlinear_arith);
                }
            }
            let (e, t) = repeating_tick(p, self.elapsed_ns, step);
            proof {
                vstd::arithmetic::div_mod::lemma_fundamental_div_mod(self.elapsed_ns + step, p as int);
                assert(p * (done + t) == p * done + p * t) by (nonlinear_arith);
                assert(p * done + p * t <= total);
                assert(done + t <= u64::MAX) by (nonlinear_arith)
                    requires
                        p * (done + t) <= total,
                        total <= p - 1 + u64::MAX,
                        p >= 1,
                        p <= u64::MAX;
            }
            self.elapsed_ns = e;
            rest = rest - step;
            done = done + t as u64;
        }
        proof {
            vstd::arithmetic::div_mod::lemma_fundamental_div_mod_converse(
                total, p as int, done as int, self.elapsed_ns as int);
        }
        done
    }
}

} // verus!

//! The brightness ramp: an infinite sequence of duty-cycle percentages that
//! rises from a minimum up to a maximum and falls back down, forever.

use vstd::prelude::*;

verus! {

use vstd::arithmetic::div_mod::{lemma_mod_bound, lemma_mod_multiples_vanish, lemma_small_mod};

/// Number of steps in one full up-and-down cycle of a ramp over the
/// half-open duty range `[min, max)`: `max - min` ascending steps followed
/// by `max - min` descending ones.
pub open spec fn period(min: int, max: int) -> int {
    2 * (max - min)
}

/// The duty value applied at step `k` (counting from 0) of the ramp over
/// `[min, max)`: the cycle first climbs through `min, min + 1, ..., max - 1`
/// and then falls back through `max - 1, max - 2, ..., min`, so the top and
/// bottom values are each held for two consecutive steps where the phases
/// meet.
pub open spec fn duty_at(min: int, max: int, k: int) -> int
    recommends
        0 <= min < max,
        0 <= k,
{
    let r = k % period(min, max);
    if r < max - min {
        min + r
    } else {
        max - 1 - (r - (max - min))
    }
}

/// The two phases of the ramp: climbing toward the maximum, or falling back
/// toward the minimum. They alternate forever; there is no terminal phase.
#[derive(Clone, Copy, Debug, PartialEq, Eq, Structural)]
pub enum Phase {
    Ascending,
    Descending,
}

/// One step of the fade effect: the duty percentage to drive the PWM channel
/// with, and how long to hold it before the next step.
#[derive(Clone, Copy, Debug, PartialEq, Eq, Structural)]
pub struct StepCommand {
    /// Duty cycle to apply, as a percentage in `[0, 100]`.
    pub duty: u8,
    /// Pause, in milliseconds, between this duty change and the next.
    pub pause_ms: u32,
}

/// The generator of the fade sequence. Each call to [`Ramp::step`] yields the
/// next duty value to apply together with the configured pause, and advances
/// the state; the sequence of values yielded is exactly `duty_at(min, max, k)`
/// for `k = 0, 1, 2, ...`.
#[derive(Clone, Copy, Debug, PartialEq, Eq, Structural)]
pub struct Ramp {
    /// Lowest duty percentage of the fade (reached at the bottom of a cycle).
    pub min_duty: u8,
    /// One past the highest duty percentage of the fade.
    pub max_duty: u8,
    /// Pause between consecutive steps, in milliseconds.
    pub interval_ms: u32,
    /// Which way the fade is currently heading.
    pub phase: Phase,
    /// The duty value the next step will apply.
    pub duty: u8,
}

impl Ramp {
    /// Well-formedness: the duty range is a nonempty slice of the percentage
    /// scale, and the pending duty value lies inside it.
    pub open spec fn wf(self) -> bool {
        &&& self.min_duty < self.max_duty
        &&& self.max_duty <= 100
        &&& self.min_duty <= self.duty < self.max_duty
    }

    /// Position of the state within the current cycle: step `0` is the bottom
    /// of the ascent, step `period - 1` the bottom of the descent.
    pub open spec fn index(self) -> int {
        match self.phase {
            Phase::Ascending => self.duty - self.min_duty,
            Phase::Descending => (self.max_duty - self.min_duty) + (self.max_duty - 1 - self.duty),
        }
    }

    /// A well-formed state sits at a valid cycle position, and the duty value
    /// it is about to apply is the one the fade sequence prescribes there.
    pub proof fn lemma_state_matches_sequence(self)
        requires
            self.wf(),
        ensures
            0 <= self.index() < period(self.min_duty as int, self.max_duty as int),
            duty_at(self.min_duty as int, self.max_duty as int, self.index()) == self.duty,
    {
        let p = period(self.min_duty as int, self.max_duty as int);
        lemma_small_mod(self.index() as nat, p as nat);
    }

    /// Starts a fade at the bottom of the ascent.
    pub fn new(min_duty: u8, max_duty: u8, interval_ms: u32) -> (r: Ramp)
        requires
            min_duty < max_duty,
            max_duty <= 100,
        ensures
            r.wf(),
            r.min_duty == min_duty,
            r.max_duty == max_duty,
            r.interval_ms == interval_ms,
            r.index() == 0,
    {
        Ramp { min_duty, max_duty, interval_ms, phase: Phase::Ascending, duty: min_duty }
    }

    /// Performs one step of the fade: yields the duty value the sequence
    /// prescribes at the current position together with the configured pause,
    /// and advances the state to the next position of the cycle, wrapping
    /// around at the end.
    pub fn step(&mut self) -> (cmd: StepCommand)
        requires
            old(self).wf(),
        ensures
            final(self).wf(),
            final(self).min_duty == old(self).min_duty,
            final(self).max_duty == old(self).max_duty,
            final(self).interval_ms == old(self).interval_ms,
            cmd.duty == old(self).duty,
            cmd.duty == duty_at(
                old(self).min_duty as int,
                old(self).max_duty as int,
                old(self).index(),
            ),
            old(self).min_duty <= cmd.duty < old(self).max_duty,
            cmd.duty <= 100,
            cmd.pause_ms == old(self).interval_ms,
            final(self).index() == (old(self).index() + 1) % period(
                old(self).min_duty as int,
                old(self).max_duty as int,
            ),
            final(self).index() == if old(self).index() + 1 < period(
                old(self).min_duty as int,
                old(self).max_duty as int,
            ) {
                old(self).index() + 1
            } else {
                0
            },
    {
        proof {
            self.lemma_state_matches_sequence();
        }
        let ghost pre = *self;
        let cmd = StepCommand { duty: self.duty, pause_ms: self.interval_ms };
        match self.phase {
            Phase::Ascending => {
                if self.duty + 1 < self.max_duty {
                    self.duty = self.duty + 1;
                } else {
                    self.phase = Phase::Descending;
                }
            },
            Phase::Descending => {
                if self.duty > self.min_duty {
                    self.duty = self.duty - 1;
                } else {
                    self.phase = Phase::Ascending;
                }
            },
        }
        proof {
            let p = period(pre.min_duty as int, pre.max_duty as int);
            if pre.index() + 1 < p {
                lemma_small_mod((pre.index() + 1) as nat, p as nat);
            } else {
                lemma_mod_multiples_vanish(1, 0, p);
            }
        }
        cmd
    }
}

/// During the ascending half of a cycle the duty values are exactly
/// `min + i` at position `i`, so over the whole half they run through the
/// integers `min, min + 1, ..., max - 1` in strictly increasing order.
pub proof fn lemma_ascending_strictly_increasing(min: int, max: int, i: int, j: int)
    requires
        0 <= min < max,
        0 <= i <= j < max - min,
    ensures
        duty_at(min, max, i) == min + i,
        min <= duty_at(min, max, i) < max,
        i < j ==> duty_at(min, max, i) < duty_at(min, max, j),
{
    let p = period(min, max);
    lemma_small_mod(i as nat, p as nat);
    lemma_small_mod(j as nat, p as nat);
}

/// During the descending half of a cycle the duty values are exactly
/// `max - 1 - (i - (max - min))` at position `i`, so over the whole half they
/// run through the integers `max - 1, max - 2, ..., min` in strictly
/// decreasing order.
pub proof fn lemma_descending_strictly_decreasing(min: int, max: int, i: int, j: int)
    requires
        0 <= min < max,
        max - min <= i <= j < period(min, max),
    ensures
        duty_at(min, max, i) == max - 1 - (i - (max - min)),
        min <= duty_at(min, max, i) < max,
        i < j ==> duty_at(min, max, i) > duty_at(min, max, j),
{
    let p = period(min, max);
    lemma_small_mod(i as nat, p as nat);
    lemma_small_mod(j as nat, p as nat);
}

/// The fade sequence is periodic: one full cycle, `max - min` ascending steps
/// followed by `max - min` descending ones, after which the sequence repeats.
pub proof fn lemma_periodic(min: int, max: int, k: int)
    requires
        0 <= min < max,
        0 <= k,
    ensures
        duty_at(min, max, k + period(min, max)) == duty_at(min, max, k),
{
    let p = period(min, max);
    lemma_mod_multiples_vanish(1, k, p);
}

/// At every step the applied duty value lies within the configured duty
/// range, and so within the percentage scale `[0, 100]`.
pub proof fn lemma_duty_in_range(min: int, max: int, k: int)
    requires
        0 <= min < max <= 100,
        0 <= k,
    ensures
        min <= duty_at(min, max, k) < max,
        0 <= duty_at(min, max, k) <= 100,
{
    let p = period(min, max);
    lemma_mod_bound(k, p);
}

/// The cycle position determines the whole state: two well-formed ramps with
/// the same configuration and the same position are equal. With
/// [`lemma_periodic`] this says that after one full cycle of steps the ramp
/// is back in the very state it started from.
pub proof fn lemma_index_determines_state(a: Ramp, b: Ramp)
    requires
        a.wf(),
        b.wf(),
        a.min_duty == b.min_duty,
        a.max_duty == b.max_duty,
        a.interval_ms == b.interval_ms,
        a.index() == b.index(),
    ensures
        a == b,
{
}

/// Computes the duty value the fade sequence over `[min_duty, max_duty)`
/// applies at step `k`, without stepping a [`Ramp`] there.
pub fn duty_at_step(min_duty: u8, max_duty: u8, k: u64) -> (d: u8)
    requires
        min_duty < max_duty,
        max_duty <= 100,
    ensures
        d == duty_at(min_duty as int, max_duty as int, k as int),
{
    let span: u64 = (max_duty - min_duty) as u64;
    let r: u64 = k % (2 * span);
    if r < span {
        min_duty + (r as u8)
    } else {
        max_duty - 1 - ((r - span) as u8)
    }
}

} // verus!

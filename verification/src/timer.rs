//! Timed trigger utility: the countdown behind every cooldown and every
//! periodic spawn job.

use vstd::prelude::*;
use vstd::arithmetic::div_mod::{
    lemma_div_by_multiple, lemma_div_is_ordered, lemma_fundamental_div_mod,
    lemma_fundamental_div_mod_converse, lemma_mod_bound,
};

verus! {

/// Whether a countdown stays finished once it fires (`Once`) or rearms itself
/// and fires again after every further full period (`Repeating`).
#[derive(Clone, Copy, PartialEq, Eq, Structural, Debug)]
pub enum TimerMode {
    Once,
    Repeating,
}

/// A countdown over integer milliseconds.
///
/// The timer remembers the total time it has been advanced since creation or
/// the last reset; the elapsed counter of the current period is derived from
/// that total. `fired_now` records whether the latest advance crossed a
/// firing boundary, which is what `just_finished` reports.
#[derive(Clone, Copy, PartialEq, Eq, Structural, Debug)]
pub struct Timer {
    pub mode: TimerMode,
    /// Length of one period in milliseconds; always at least one.
    pub duration_ms: u64,
    /// Total time advanced since creation or the last reset.
    pub total_ms: u64,
    /// Whether the latest advance crossed a firing boundary.
    pub fired_now: bool,
}

impl Timer {
    pub open spec fn wf(self) -> bool {
        self.duration_ms >= 1
    }

    /// Time counted toward the next firing: capped at the duration for a
    /// one-shot timer, wrapped modulo the duration for a repeating one.
    pub open spec fn spec_elapsed(self) -> int {
        if self.mode is Once {
            if self.total_ms >= self.duration_ms {
                self.duration_ms as int
            } else {
                self.total_ms as int
            }
        } else {
            self.total_ms as int % self.duration_ms as int
        }
    }

    /// How often the timer has fired since creation or the last reset.
    pub open spec fn spec_fired_count(self) -> int {
        if self.mode is Once {
            if self.total_ms >= self.duration_ms {
                1
            } else {
                0
            }
        } else {
            self.total_ms as int / self.duration_ms as int
        }
    }

    /// The state one advance by `dt` milliseconds leads to. A one-shot timer
    /// fires exactly on the advance that carries the total past the duration;
    /// a repeating timer fires on every advance that carries the total past a
    /// further multiple of the duration.
    pub open spec fn spec_advance(self, dt: u64) -> Timer {
        Timer {
            total_ms: (self.total_ms + dt) as u64,
            fired_now: match self.mode {
                TimerMode::Once => self.total_ms < self.duration_ms
                    && self.total_ms + dt >= self.duration_ms,
                TimerMode::Repeating => (self.total_ms + dt) as int / self.duration_ms as int
                    > self.total_ms as int / self.duration_ms as int,
            },
            ..self
        }
    }

    pub fn new(duration_ms: u64, mode: TimerMode) -> (t: Timer)
        requires
            duration_ms >= 1,
        ensures
            t == (Timer { mode, duration_ms, total_ms: 0, fired_now: false }),
            t.wf(),
    {
        Timer { mode, duration_ms, total_ms: 0, fired_now: false }
    }

    /// Advances the countdown by `dt` milliseconds.
    pub fn advance(&mut self, dt: u64)
        requires
            old(self).wf(),
            old(self).total_ms + dt <= u64::MAX,
        ensures
            *final(self) == old(self).spec_advance(dt),
            final(self).wf(),
    {
        let new_total: u64 = self.total_ms + dt;
        let fired: bool = match self.mode {
            TimerMode::Once => self.total_ms < self.duration_ms && new_total >= self.duration_ms,
            TimerMode::Repeating => new_total / self.duration_ms
                > self.total_ms / self.duration_ms,
        };
        self.total_ms = new_total;
        self.fired_now = fired;
    }

    /// True exactly when the latest advance crossed a firing boundary.
    pub fn just_finished(&self) -> (r: bool)
        ensures
            r == self.fired_now,
    {
        self.fired_now
    }

    /// Rearms the countdown: the total starts over from zero.
    pub fn reset(&mut self)
        ensures
            *final(self) == (Timer { total_ms: 0, fired_now: false, ..*old(self) }),
    {
        self.total_ms = 0;
        self.fired_now = false;
    }

    /// Elapsed time of the current period, in milliseconds.
    pub fn elapsed_ms(&self) -> (r: u64)
        requires
            self.wf(),
        ensures
            r == self.spec_elapsed(),
    {
        match self.mode {
            TimerMode::Once => {
                if self.total_ms >= self.duration_ms {
                    self.duration_ms
                } else {
                    self.total_ms
                }
            },
            TimerMode::Repeating => self.total_ms % self.duration_ms,
        }
    }
}

/// Law: a one-shot timer that has reached its duration reports
/// `just_finished` on no further advance, however long, until it is reset.
pub proof fn lemma_once_stays_quiet(t: Timer, dt: u64)
    requires
        t.wf(),
        t.mode is Once,
        t.total_ms >= t.duration_ms,
    ensures
        !t.spec_advance(dt).fired_now,
{
}

/// Law: a one-shot timer fires at most once per reset. On the advance where
/// it fires, its total reaches the duration, and from then on
/// `lemma_once_stays_quiet` applies: no later advance fires it again.
pub proof fn lemma_once_fires_at_most_once(t: Timer, dt1: u64, dt2: u64)
    requires
        t.wf(),
        t.mode is Once,
        t.total_ms + dt1 <= u64::MAX,
        t.spec_advance(dt1).fired_now,
    ensures
        t.spec_advance(dt1).total_ms >= t.duration_ms,
        !t.spec_advance(dt1).spec_advance(dt2).fired_now,
{
}

/// Law: a repeating timer advanced by a step of at most its duration fires
/// exactly on the advances whose span covers an integer multiple of the
/// duration, and such a step covers at most one multiple: no firing boundary
/// is skipped and none is reported twice.
pub proof fn lemma_repeating_no_skip(t: Timer, dt: u64)
    requires
        t.wf(),
        t.mode is Repeating,
        dt <= t.duration_ms,
        t.total_ms + dt <= u64::MAX,
    ensures
        t.spec_advance(dt).spec_fired_count() == t.spec_fired_count() + (
        if t.spec_advance(dt).fired_now {
            1int
        } else {
            0int
        }),
        t.spec_advance(dt).fired_now <==> (exists|k: int|
            t.total_ms < #[trigger] (k * t.duration_ms) <= t.total_ms + dt),
{
    let d = t.duration_ms as int;
    let a = t.total_ms as int;
    let b = a + dt;
    let q1 = a / d;
    let q2 = b / d;
    lemma_fundamental_div_mod(a, d);
    lemma_mod_bound(a, d);
    lemma_fundamental_div_mod(b, d);
    lemma_mod_bound(b, d);
    let r1 = a % d;
    let r2 = b % d;
    assert(q1 <= q2 && q2 <= q1 + 1) by (nonlinear_arith)
        requires
            d >= 1,
            a == d * q1 + r1,
            b == d * q2 + r2,
            0 <= r1 < d,
            0 <= r2 < d,
            a <= b,
            b <= a + d,
    ;
    if q2 == q1 + 1 {
        assert(a < q2 * d && q2 * d <= b) by (nonlinear_arith)
            requires
                d >= 1,
                a == d * q1 + r1,
                b == d * q2 + r2,
                0 <= r1 < d,
                0 <= r2 < d,
                q2 == q1 + 1,
        ;
        assert(t.total_ms < q2 * t.duration_ms <= t.total_ms + dt);
    }
    if exists|k: int| a < #[trigger] (k * d) <= b {
        let k = choose|k: int| a < #[trigger] (k * d) <= b;
        assert(k >= 1) by (nonlinear_arith)
            requires
                d >= 1,
                a >= 0,
                a < k * d,
        ;
        lemma_div_is_ordered(k * d, b, d);
        lemma_div_by_multiple(k, d);
        assert(k <= q2);
        assert(k * d - 1 == (k - 1) * d + (d - 1)) by (nonlinear_arith);
        lemma_fundamental_div_mod_converse(k * d - 1, d, k - 1, d - 1);
        lemma_div_is_ordered(a, k * d - 1, d);
        assert(q1 <= k - 1);
        assert(q2 > q1);
    }
}

} // verus!

//! Sprite-cycling data produced for the presentation layer: a frame-index
//! range and a repeating timer that steps through it.

use vstd::prelude::*;
use crate::timer::{Timer, TimerMode};

verus! {

/// Frame-index range of a sprite sheet's run animation.
#[derive(Clone, Copy, PartialEq, Eq, Structural, Debug)]
pub struct AnimationIndices {
    pub first: usize,
    pub last: usize,
}

/// Current frame of one sprite, together with the timer that cycles it.
#[derive(Clone, Copy, PartialEq, Eq, Structural, Debug)]
pub struct AnimationState {
    pub indices: AnimationIndices,
    pub timer: Timer,
    pub index: usize,
}

impl AnimationState {
    pub open spec fn wf(self) -> bool {
        &&& self.indices.first <= self.indices.last
        &&& self.indices.first <= self.index <= self.indices.last
        &&& self.timer.wf()
        &&& self.timer.mode is Repeating
    }

    pub fn new(first: usize, last: usize, period_ms: u64) -> (s: AnimationState)
        requires
            first <= last,
            period_ms >= 1,
        ensures
            s == (AnimationState {
                indices: AnimationIndices { first, last },
                timer: Timer {
                    mode: TimerMode::Repeating,
                    duration_ms: period_ms,
                    total_ms: 0,
                    fired_now: false,
                },
                index: first,
            }),
            s.wf(),
    {
        AnimationState {
            indices: AnimationIndices { first, last },
            timer: Timer::new(period_ms, TimerMode::Repeating),
            index: first,
        }
    }

    /// Advances the cycling timer and, on each firing, steps the frame index
    /// through the range, wrapping from the last frame back to the first.
    pub fn advance(&mut self, dt: u64)
        requires
            old(self).wf(),
            old(self).timer.total_ms + dt <= u64::MAX,
        ensures
            final(self).wf(),
            final(self).indices == old(self).indices,
            final(self).timer == old(self).timer.spec_advance(dt),
            final(self).index as int == (if old(self).timer.spec_advance(dt).fired_now {
                if old(self).index == old(self).indices.last {
                    old(self).indices.first as int
                } else {
                    old(self).index + 1
                }
            } else {
                old(self).index as int
            }),
    {
        self.timer.advance(dt);
        if self.timer.just_finished() {
            self.index = if self.index == self.indices.last {
                self.indices.first
            } else {
                self.index + 1
            };
        }
    }
}

} // verus!

//! Eased, time-sampled interpolation between two scalars.
//!
//! Scalars are fixed-point milli-units (so a hover fade runs from 0 to
//! 1000) and time is integer milliseconds supplied by the caller.  The
//! curve is ease-out-cubic: `eased = 1 - (1 - t)^3` of the elapsed
//! fraction `t`, reaching the target exactly when the elapsed time meets
//! the duration.

use vstd::prelude::*;
use crate::geometry::{in_coord, COORD_LIMIT};

verus! {

/// Largest sample time the animation clock accepts, in milliseconds.
pub const TIME_LIMIT: i64 = 0x100_0000_0000;

/// Longest a single animation may run, in milliseconds.
pub const DURATION_LIMIT: i64 = 0x10_0000;

/// The eased scalar `elapsed` milliseconds into an interpolation of
/// `duration` milliseconds from `start` to `target`.  Before the start it
/// sits at `start`; from `duration` on it is `target` exactly; in
/// between it is `start + (target - start) * (d^3 - (d - e)^3) / d^3`,
/// the fixed-point form of ease-out-cubic, with the scaled difference
/// divided out before being applied.
pub open spec fn spec_eased_value(start: int, target: int, elapsed: int, duration: int) -> int {
    if duration <= 0 || elapsed >= duration {
        target
    } else if elapsed <= 0 {
        start
    } else {
        let rem = duration - elapsed;
        let num = duration * duration * duration - rem * rem * rem;
        let den = duration * duration * duration;
        if target >= start {
            start + (target - start) * num / den
        } else {
            start - (start - target) * num / den
        }
    }
}

/// One in-flight interpolation: where it started, where it is going, the
/// moment it began, and how long it runs.
#[derive(Clone, Copy, Debug)]
pub struct AnimationState {
    pub start_value: i64,
    pub target_value: i64,
    pub start_time: i64,
    pub duration_ms: i64,
}

impl AnimationState {
    /// Values in the coordinate range, times in the clock range.
    pub open spec fn wf(self) -> bool {
        &&& in_coord(self.start_value)
        &&& in_coord(self.target_value)
        &&& 0 <= self.start_time <= TIME_LIMIT
        &&& 0 <= self.duration_ms <= DURATION_LIMIT
    }

    /// An interpolation from `start` to `target` over `duration_ms`
    /// milliseconds, whose clock starts at `now_ms`.
    pub fn new(start: i64, target: i64, duration_ms: i64, now_ms: i64) -> (a: AnimationState)
        requires
            in_coord(start),
            in_coord(target),
            0 <= duration_ms <= DURATION_LIMIT,
            0 <= now_ms <= TIME_LIMIT,
        ensures
            a == (AnimationState {
                start_value: start,
                target_value: target,
                start_time: now_ms,
                duration_ms,
            }),
            a.wf(),
    {
        AnimationState { start_value: start, target_value: target, start_time: now_ms, duration_ms }
    }

    /// The milliseconds this animation has run at time `now`, never
    /// negative.
    pub open spec fn spec_elapsed(self, now: int) -> int {
        if now - self.start_time > 0 {
            now - self.start_time
        } else {
            0
        }
    }

    /// The eased value at time `now_ms`: exactly `target_value` once the
    /// elapsed time reaches the duration, the ease-out-cubic blend
    /// before that.  The result always lies between the start and target
    /// values.
    pub fn value(&self, now_ms: i64) -> (r: i64)
        requires
            self.wf(),
            0 <= now_ms <= TIME_LIMIT,
        ensures
            r == spec_eased_value(
                self.start_value as int,
                self.target_value as int,
                self.spec_elapsed(now_ms as int),
                self.duration_ms as int,
            ),
            in_coord(r),
    {
        let elapsed: i64 = if now_ms - self.start_time > 0 {
            now_ms - self.start_time
        } else {
            0
        };
        if self.duration_ms <= 0 || elapsed >= self.duration_ms {
            return self.target_value;
        }
        if elapsed <= 0 {
            return self.start_value;
        }
        let d: i64 = self.duration_ms;
        let rem: i64 = d - elapsed;
        assert(0 <= rem * rem <= d * d <= 0x10_0000 * 0x10_0000 && 0 <= rem * rem * rem <= d * d
            * d <= 0x10_0000 * 0x10_0000 * 0x10_0000 && 1 <= d * d * d) by (nonlinear_arith)
            requires
                0 < rem <= d <= 0x10_0000,
        ;
        let den: i64 = d * d * d;
        let num: i64 = den - rem * rem * rem;
        let diff: i64 = if self.target_value >= self.start_value {
            self.target_value - self.start_value
        } else {
            self.start_value - self.target_value
        };
        assert(0 <= diff * num <= 0x8000_0000 * 0x1000_0000_0000_0000 && diff * num / (den as int) <= diff)
            by (nonlinear_arith)
            requires
                0 <= diff <= 0x8000_0000 && 0 <= num <= den && 0 < den <= 0x1000_0000_0000_0000,
        ;
        let step: i128 = diff as i128 * num as i128 / den as i128;
        let step64: i64 = step as i64;
        if self.target_value >= self.start_value {
            self.start_value + step64
        } else {
            self.start_value - step64
        }
    }

    /// Whether the elapsed time at `now_ms` has reached the duration;
    /// pure arithmetic, independent of any sampling.
    pub fn is_complete(&self, now_ms: i64) -> (r: bool)
        requires
            self.wf(),
            0 <= now_ms <= TIME_LIMIT,
        ensures
            r == (self.spec_elapsed(now_ms as int) >= self.duration_ms),
    {
        let elapsed: i64 = if now_ms - self.start_time > 0 {
            now_ms - self.start_time
        } else {
            0
        };
        elapsed >= self.duration_ms
    }
}

/// A persistent animated scalar: the last displayed value plus the
/// in-flight interpolation, if any.  Stored in the state store like any
/// other widget state.
#[derive(Clone, Copy, Debug)]
pub struct AnimatedValue {
    pub anim: Option<AnimationState>,
    pub current: i64,
}

impl AnimatedValue {
    /// The displayed value is in range and any in-flight animation is
    /// well formed.
    pub open spec fn wf(self) -> bool {
        &&& in_coord(self.current)
        &&& (self.anim matches Some(a) ==> a.wf())
    }

    /// The target the value is headed for: the in-flight target, or the
    /// settled current value when nothing is in flight.
    pub open spec fn spec_requested_target(self) -> int {
        match self.anim {
            Some(a) => a.target_value as int,
            None => self.current as int,
        }
    }

    /// A settled value with nothing in flight.
    pub fn new(initial: i64) -> (v: AnimatedValue)
        requires
            in_coord(initial),
        ensures
            v.anim is None,
            v.current == initial,
            v.wf(),
    {
        AnimatedValue { anim: None, current: initial }
    }

    /// The value shown at time `now`: the eased sample of the in-flight
    /// interpolation, or the settled current value.
    pub open spec fn spec_displayed(self, now: int) -> int {
        match self.anim {
            Some(a) => spec_eased_value(
                a.start_value as int,
                a.target_value as int,
                a.spec_elapsed(now),
                a.duration_ms as int,
            ),
            None => self.current as int,
        }
    }

    /// Requests `target`: if the last requested target already equals
    /// `target` the animation is left untouched — repeating the same
    /// request every frame must not restart the curve — otherwise a new
    /// interpolation starts at `now_ms` from the value displayed at that
    /// moment, never from the old target, so a hover that toggles
    /// mid-animation never jumps.
    pub fn set(&mut self, target: i64, duration_ms: i64, now_ms: i64)
        requires
            old(self).wf(),
            in_coord(target),
            0 <= duration_ms <= DURATION_LIMIT,
            0 <= now_ms <= TIME_LIMIT,
        ensures
            old(self).spec_requested_target() == target ==> *final(self) == *old(self),
            old(self).spec_requested_target() != target ==> {
                let displayed = old(self).spec_displayed(now_ms as int);
                &&& final(self).current == displayed
                &&& final(self).anim == Some(AnimationState {
                    start_value: displayed as i64,
                    target_value: target,
                    start_time: now_ms,
                    duration_ms,
                })
            },
            final(self).spec_requested_target() == target,
            final(self).wf(),
    {
        let restart: bool = match &self.anim {
            Some(a) => a.target_value != target,
            None => self.current != target,
        };
        if restart {
            let displayed: i64 = match &self.anim {
                Some(a) => a.value(now_ms),
                None => self.current,
            };
            self.current = displayed;
            self.anim = Some(AnimationState::new(displayed, target, duration_ms, now_ms));
        }
    }

    /// Samples the animation at `now_ms`, records the displayed value,
    /// retires the interpolation once complete, and returns the value.
    pub fn update(&mut self, now_ms: i64) -> (r: i64)
        requires
            old(self).wf(),
            0 <= now_ms <= TIME_LIMIT,
        ensures
            r == final(self).current,
            final(self).current == (match old(self).anim {
                Some(a) => spec_eased_value(
                    a.start_value as int,
                    a.target_value as int,
                    a.spec_elapsed(now_ms as int),
                    a.duration_ms as int,
                ),
                None => old(self).current as int,
            }),
            final(self).anim == (match old(self).anim {
                Some(a) => if a.spec_elapsed(now_ms as int) >= a.duration_ms {
                    None
                } else {
                    Some(a)
                },
                None => None::<AnimationState>,
            }),
            final(self).wf(),
    {
        let keep: bool = match &self.anim {
            Some(a) => {
                self.current = a.value(now_ms);
                !a.is_complete(now_ms)
            },
            None => false,
        };
        if !keep {
            self.anim = None;
        }
        self.current
    }

    /// Whether an interpolation is still in flight.
    pub fn is_animating(&self) -> (r: bool)
        ensures
            r == (self.anim is Some),
    {
        match &self.anim {
            Some(_) => true,
            None => false,
        }
    }
}

} // verus!

//! The time-like animation parameter and its wrap rule.
//!
//! `AnimationState` holds a scalar `t` (fixed-point, see [`crate::fixed`])
//! together with the declared bounds of its range.  `advance` adds a step and
//! wraps: a result past the upper bound is reset to the lower bound.  `bump`
//! adds unconditionally; the wrap rule is re-applied only by the next
//! `advance`.

use vstd::prelude::*;

use crate::fixed::iabs;

verus! {

/// Bound on the declared range of the parameter, far below `i64` limits so
/// that a step never overflows.
pub const T_RANGE_MAX: i64 = 1_000_000_000_000;

/// Bound on a single step or bump accepted by the state, chosen so that
/// `t + step` always fits in an `i64`.
pub const T_STEP_MAX: i64 = 1_000_000_000_000_000_000;

/// One step of the wrap rule: add, and reset to the lower bound when the sum
/// passes the upper bound.
pub open spec fn wrap_step(t: int, step: int, lower: int, upper: int) -> int {
    if t + step > upper {
        lower
    } else {
        t + step
    }
}

/// A scalar animation parameter with a declared range and a wrap rule.
#[derive(Clone, Copy, PartialEq, Eq, Structural, Debug)]
pub struct AnimationState {
    /// The current value of the parameter (fixed-point).
    pub t: i64,
    /// The declared lower bound of the range (fixed-point).
    pub lower: i64,
    /// The declared upper bound of the range (fixed-point).
    pub upper: i64,
}

impl AnimationState {
    /// The declared range is well-formed and small enough that stepping
    /// arithmetic cannot overflow.
    pub open spec fn wf(self) -> bool {
        &&& self.lower < self.upper
        &&& iabs(self.lower as int) <= T_RANGE_MAX
        &&& iabs(self.upper as int) <= T_RANGE_MAX
        &&& iabs(self.t as int) <= T_STEP_MAX
    }

    /// A new state at `t0` with the declared range `[lower, upper]`.
    pub fn new(t0: i64, lower: i64, upper: i64) -> (s: Self)
        requires
            lower < upper,
            iabs(lower as int) <= T_RANGE_MAX,
            iabs(upper as int) <= T_RANGE_MAX,
            iabs(t0 as int) <= T_RANGE_MAX,
        ensures
            s == (AnimationState { t: t0, lower, upper }),
            s.wf(),
    {
        AnimationState { t: t0, lower, upper }
    }

    /// Advance by one step, wrapping past the upper bound to the lower bound.
    ///
    /// When the state starts at or above its lower bound and the step is not
    /// negative, the result stays inside the declared range: that bound holds
    /// after every such call, however many have gone before.
    pub fn advance(&mut self, step: i64)
        requires
            old(self).wf(),
            iabs(step as int) <= T_STEP_MAX,
            iabs(old(self).t + step) <= T_STEP_MAX,
        ensures
            final(self).t == wrap_step(old(self).t as int, step as int, old(self).lower as int, old(self).upper as int),
            final(self).lower == old(self).lower,
            final(self).upper == old(self).upper,
            final(self).wf(),
            old(self).lower <= old(self).t && 0 <= step ==> old(self).lower <= final(self).t <= old(self).upper,
    {
        let sum: i64 = self.t + step;
        if sum > self.upper {
            self.t = self.lower;
        } else {
            self.t = sum;
        }
    }

    /// Add an externally triggered amount to the parameter, without applying
    /// the wrap rule: only the next `advance` re-checks the range.
    pub fn bump(&mut self, amount: i64)
        requires
            old(self).wf(),
            iabs(amount as int) <= T_STEP_MAX,
            iabs(old(self).t + amount) <= T_STEP_MAX,
        ensures
            final(self).t == old(self).t + amount,
            final(self).lower == old(self).lower,
            final(self).upper == old(self).upper,
            final(self).wf(),
    {
        self.t = self.t + amount;
    }
}

/// The value of the parameter after a whole sequence of `advance` steps.
pub open spec fn wrap_steps(t: int, steps: Seq<int>, lower: int, upper: int) -> int
    decreases steps.len(),
{
    if steps.len() == 0 {
        t
    } else {
        wrap_steps(wrap_step(t, steps[0], lower, upper), steps.subrange(1, steps.len() as int), lower, upper)
    }
}

/// For any sequence of non-negative steps, however far their sum runs past
/// the upper bound, the parameter stays inside the declared range after every
/// step: wrapping resets it to the lower bound, and no step lowers it past
/// that bound.
pub proof fn lemma_advance_stays_in_range(t: int, steps: Seq<int>, lower: int, upper: int)
    requires
        lower < upper,
        lower <= t <= upper,
        forall|i: int| 0 <= i < steps.len() ==> steps[i] >= 0,
    ensures
        lower <= wrap_steps(t, steps, lower, upper) <= upper,
        steps.len() > 0 ==> lower <= wrap_step(t, steps[0], lower, upper) <= upper,
    decreases steps.len(),
{
    if steps.len() > 0 {
        let t1 = wrap_step(t, steps[0], lower, upper);
        lemma_advance_stays_in_range(t1, steps.subrange(1, steps.len() as int), lower, upper);
    }
}

} // verus!

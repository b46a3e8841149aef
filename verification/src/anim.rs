//! The indicator animation controller.
//!
//! An animation eases the indicator's width toward a target over a fixed
//! number of steps, growing or shrinking symmetrically around its center.
//! Each animation captures the value of a monotonically increasing
//! generation counter when it starts; before applying a frame it checks
//! that the counter still equals its captured value. Starting a new
//! animation bumps the counter, so every frame check of an older animation
//! fails from then on: at most one animation ever keeps repositioning the
//! indicator, without any blocking cancellation signal.

use vstd::prelude::*;

use crate::geom::coord_ok;

verus! {

/// Number of eased steps in one animation.
pub const ANIM_STEPS: u64 = 8;

/// Interval between animation frames, in milliseconds.
pub const ANIM_STEP_MS: u64 = 30;

/// The shared generation counter that invalidates stale animations.
pub struct AnimationController {
    /// Generation of the most recently started animation.
    pub generation: u64,
}

impl AnimationController {
    /// A controller with no animation started yet.
    pub fn new() -> (s: Self)
        ensures
            s.generation == 0,
    {
        AnimationController { generation: 0 }
    }

    /// Whether an animation holding `token` is still the active one.
    pub open spec fn current(self, token: u64) -> bool {
        token == self.generation
    }

    /// Start a new animation: bump the generation and hand the new value
    /// to the starting animation as its validity token. Every token handed
    /// out earlier is stale from this moment on.
    pub fn begin(&mut self) -> (token: u64)
        requires
            old(self).generation < u64::MAX,
        ensures
            final(self).generation == old(self).generation + 1,
            token == final(self).generation,
            final(self).current(token),
            forall|t: u64| t <= old(self).generation ==> !final(self).current(t),
    {
        self.generation = self.generation + 1;
        self.generation
    }

    /// Re-read the counter before a frame: whether the animation holding
    /// `token` may still apply it.
    pub fn is_current(&self, token: u64) -> (r: bool)
        ensures
            r == self.current(token),
    {
        token == self.generation
    }
}

/// At most one animation is ever active: however the controller got where
/// it is, two distinct tokens are never both current, so when a second
/// animation starts (taking a fresh token), the first one's next frame
/// check fails and it stops within one step interval.
pub proof fn lemma_single_active_animation(c: AnimationController, t1: u64, t2: u64)
    requires
        t1 != t2,
    ensures
        !(c.current(t1) && c.current(t2)),
{
}

/// The ease-out numerator at step `i` of [`ANIM_STEPS`]: with `t = i / 8`,
/// the eased fraction `1 - (1 - t)^2` equals `ease_num(i) / 64`.
pub open spec fn ease_num(i: int) -> int {
    64 - (8 - i) * (8 - i)
}

/// The eased value between `start` and `target` at step `i`, rounding the
/// travelled distance toward zero.
pub open spec fn eased_value(start: int, target: int, i: int) -> int {
    if target >= start {
        start + (target - start) * ease_num(i) / 64
    } else {
        start - (start - target) * ease_num(i) / 64
    }
}

/// The indicator width at step `i` of an animation from `start_w` toward
/// `target_w`: eased out, never overshooting, and landing exactly on the
/// target at the final step.
pub fn anim_width(start_w: i64, target_w: i64, i: u64) -> (w: i64)
    requires
        coord_ok(start_w),
        coord_ok(target_w),
        1 <= i <= ANIM_STEPS,
    ensures
        w == eased_value(start_w as int, target_w as int, i as int),
        i == ANIM_STEPS ==> w == target_w,
        start_w <= target_w ==> start_w <= w <= target_w,
        target_w <= start_w ==> target_w <= w <= start_w,
{
    let back: i64 = 8 - (i as i64);
    assert(0 <= back <= 7);
    assert(0 <= back * back <= 49) by (nonlinear_arith)
        requires
            0 <= back <= 7,
    ;
    let e: i64 = 64 - back * back;
    assert(0 <= e <= 64);
    if target_w >= start_w {
        let d = target_w - start_w;
        assert(0 <= d * e <= 128 * crate::geom::COORD_LIMIT) by (nonlinear_arith)
            requires
                0 <= d <= 2 * crate::geom::COORD_LIMIT,
                0 <= e <= 64,
        ;
        let travel = d * e / 64;
        assert(0 <= travel <= d) by (nonlinear_arith)
            requires
                0 <= d,
                0 <= e <= 64,
                travel == d * e / 64,
        ;
        proof {
            if i == ANIM_STEPS {
                assert(back * back == 0) by (nonlinear_arith)
                    requires
                        back == 0,
                ;
            }
            if e == 64 {
                vstd::arithmetic::div_mod::lemma_div_multiples_vanish(d as int, 64);
            }
        }
        start_w + travel
    } else {
        let d = start_w - target_w;
        assert(0 <= d * e <= 128 * crate::geom::COORD_LIMIT) by (nonlinear_arith)
            requires
                0 <= d <= 2 * crate::geom::COORD_LIMIT,
                0 <= e <= 64,
        ;
        let travel = d * e / 64;
        assert(0 <= travel <= d) by (nonlinear_arith)
            requires
                0 <= d,
                0 <= e <= 64,
                travel == d * e / 64,
        ;
        proof {
            if i == ANIM_STEPS {
                assert(back * back == 0) by (nonlinear_arith)
                    requires
                        back == 0,
                ;
            }
            if e == 64 {
                vstd::arithmetic::div_mod::lemma_div_multiples_vanish(d as int, 64);
            }
        }
        start_w - travel
    }
}

/// The indicator's left edge at a frame: shifted by half the width change
/// so the indicator grows and shrinks symmetrically around its center.
pub fn anim_x(start_x: i64, start_w: i64, w: i64) -> (x: i64)
    requires
        coord_ok(start_x),
        coord_ok(start_w),
        coord_ok(w),
    ensures
        x == if w >= start_w {
            start_x - (w - start_w) / 2
        } else {
            start_x + (start_w - w) / 2
        },
{
    if w >= start_w {
        start_x - (w - start_w) / 2
    } else {
        start_x + (start_w - w) / 2
    }
}

/// Start the expansion of the indicator toward the selection width.
/// Returns the new animation's validity token and its target width.
pub fn expand_trigger(c: &mut AnimationController) -> (r: (u64, i64))
    requires
        old(c).generation < u64::MAX,
    ensures
        final(c).generation == old(c).generation + 1,
        r.0 == final(c).generation,
        final(c).current(r.0),
        forall|t: u64| t <= old(c).generation ==> !final(c).current(t),
        r.1 == crate::tracker::TRIGGER_SELECTION_WIDTH,
{
    let token = c.begin();
    (token, crate::tracker::TRIGGER_SELECTION_WIDTH)
}

/// Start shrinking the indicator back to the thin paragraph line.
/// Returns the new animation's validity token and its target width.
pub fn shrink_trigger(c: &mut AnimationController) -> (r: (u64, i64))
    requires
        old(c).generation < u64::MAX,
    ensures
        final(c).generation == old(c).generation + 1,
        r.0 == final(c).generation,
        final(c).current(r.0),
        forall|t: u64| t <= old(c).generation ==> !final(c).current(t),
        r.1 == crate::tracker::TRIGGER_PARAGRAPH_WIDTH,
{
    let token = c.begin();
    (token, crate::tracker::TRIGGER_PARAGRAPH_WIDTH)
}

} // verus!

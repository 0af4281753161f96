//! The laws of the movement state machine, proved once and for all over the
//! specification functions that the executable contracts use.

use vstd::prelude::*;
use vstd::math::abs;
use crate::motion::{
    damp, lemma_damp_bounds, lemma_damp_identity, lemma_damp_strict, scaled, step_vx, step_vy,
    with_grounded, MotionConfig, PlayerMotionState, SCALE,
};

verus! {

/// Resting on the ground with no input and no jump, a tick leaves the
/// horizontal velocity at zero and the vertical velocity is exactly the
/// tick's gravity contribution: damping a zero velocity has no visible
/// effect, and gravity is applied after damping.
pub proof fn lemma_rest_step_is_gravity_only(dt: int, c: MotionConfig)
    requires
        c.wf(),
        0 <= dt,
    ensures
        step_vx(0, true, 0, dt, c) == 0,
        step_vy(0, true, false, dt, c) == -scaled(c.gravity as int * dt),
{
}

/// A jump press while airborne does not engage the jump rule: the tick
/// computes exactly what it would have computed without the press, so only
/// friction and gravity act on the vertical velocity.
pub proof fn lemma_jump_requires_ground(vy: int, dt: int, c: MotionConfig)
    ensures
        step_vy(vy, false, true, dt, c) == step_vy(vy, false, false, dt, c),
{
}

/// A grounded-transition report is visible to a step in the same tick:
/// stepping the reported state computes exactly a step with the reported
/// flag, on the unchanged velocity.
pub proof fn lemma_grounded_report_visible(
    s: PlayerMotionState,
    is_grounded: bool,
    input_direction: int,
    jump_pressed: bool,
    dt: int,
    c: MotionConfig,
)
    ensures
        with_grounded(s, is_grounded).grounded == is_grounded,
        with_grounded(s, is_grounded).velocity == s.velocity,
        step_vx(
            with_grounded(s, is_grounded).velocity.x as int,
            with_grounded(s, is_grounded).grounded,
            input_direction,
            dt,
            c,
        ) == step_vx(s.velocity.x as int, is_grounded, input_direction, dt, c),
        step_vy(
            with_grounded(s, is_grounded).velocity.y as int,
            with_grounded(s, is_grounded).grounded,
            jump_pressed,
            dt,
            c,
        ) == step_vy(s.velocity.y as int, is_grounded, jump_pressed, dt, c),
{
}

/// Reporting the same grounded value twice leaves the state exactly as one
/// report does: the second report is a no-op in effect.
pub proof fn lemma_grounded_report_idempotent(s: PlayerMotionState, is_grounded: bool)
    ensures
        with_grounded(with_grounded(s, is_grounded), is_grounded) == with_grounded(s, is_grounded),
{
}

/// Grounded, with no input and zero gravity, one tick multiplies the
/// horizontal velocity by the ground friction alone. Below one, the
/// magnitude never grows and strictly shrinks while nonzero; at exactly one
/// it is unchanged. Since this holds of every velocity, repeated ticks drive
/// the magnitude monotonically toward zero.
pub proof fn lemma_ground_friction_damps(vx: int, dt: int, c: MotionConfig)
    requires
        c.wf(),
        c.gravity == 0,
        0 <= dt,
    ensures
        step_vx(vx, true, 0, dt, c) == damp(vx, c.ground_friction as int),
        c.ground_friction < SCALE ==> abs(step_vx(vx, true, 0, dt, c)) <= abs(vx),
        c.ground_friction < SCALE && vx != 0 ==> abs(step_vx(vx, true, 0, dt, c)) < abs(vx),
        c.ground_friction == SCALE ==> step_vx(vx, true, 0, dt, c) == vx,
{
    lemma_damp_bounds(vx, c.ground_friction as int);
    if c.ground_friction < SCALE && vx != 0 {
        lemma_damp_strict(vx, c.ground_friction as int);
    }
    if c.ground_friction == SCALE {
        lemma_damp_identity(vx);
    }
}

/// The horizontal velocity after `n` coasting ticks: grounded, no input, no
/// jump, each tick applying `step_vx` to the previous result.
pub open spec fn coast_vx(vx: int, n: nat, dt: int, c: MotionConfig) -> int
    decreases n,
{
    if n == 0 {
        vx
    } else {
        step_vx(coast_vx(vx, (n - 1) as nat, dt, c), true, 0, dt, c)
    }
}

/// Coasting on the ground with zero gravity, any number of ticks: with
/// friction strictly below one the magnitude never exceeds where it started,
/// and with friction exactly one the velocity never moves at all.
pub proof fn lemma_coasting_is_monotone(vx: int, n: nat, dt: int, c: MotionConfig)
    requires
        c.wf(),
        c.gravity == 0,
        0 <= dt,
    ensures
        c.ground_friction < SCALE ==> abs(coast_vx(vx, n, dt, c)) <= abs(vx),
        c.ground_friction == SCALE ==> coast_vx(vx, n, dt, c) == vx,
    decreases n,
{
    if n > 0 {
        lemma_coasting_is_monotone(vx, (n - 1) as nat, dt, c);
        lemma_ground_friction_damps(coast_vx(vx, (n - 1) as nat, dt, c), dt, c);
    }
}

} // verus!

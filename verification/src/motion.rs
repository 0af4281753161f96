//! The movement state machine itself: its data, the exact specification of
//! one simulation tick, and the verified executable update.

use vstd::prelude::*;
use vstd::arithmetic::div_mod::{
    lemma_div_multiples_vanish, lemma_div_nonincreasing, lemma_div_pos_is_pos,
    lemma_multiply_divide_le, lemma_multiply_divide_lt,
};
use vstd::arithmetic::mul::{
    lemma_mul_inequality, lemma_mul_is_commutative, lemma_mul_nonnegative,
    lemma_mul_strict_inequality, lemma_mul_strictly_positive, lemma_mul_unary_negation,
};
use vstd::math::abs;

verus! {

/// Fixed-point scale: one whole unit of distance, speed or time is this many
/// sub-units, and a friction factor of `SCALE` means a decay factor of one.
pub const SCALE: i64 = 1000;

/// Largest magnitude accepted for the tuning constants `speed`, `jump_force`
/// and `gravity`, in sub-units.
pub const CONFIG_LIMIT: i64 = 1_000_000_000;

/// Largest tick duration accepted by `step`, in sub-units of a second.
pub const DT_LIMIT: i64 = 1_000_000;

/// Largest velocity magnitude accepted by `step` on each axis, in sub-units.
///
/// The three limits are chosen together so that every intermediate product of
/// a step stays comfortably inside an `i64`.
pub const VEL_LIMIT: i64 = 1_000_000_000_000;

/// A two-dimensional vector of fixed-point coordinates.
#[derive(Clone, Copy, PartialEq, Eq, Structural, Debug)]
pub struct Vec2 {
    pub x: i64,
    pub y: i64,
}

/// The immutable tuning constants of the movement rules.
///
/// `ground_friction` and `air_friction` are per-tick decay factors expressed
/// as fractions of `SCALE`; `speed`, `jump_force` and `gravity` are
/// fixed-point rates in sub-units.
#[derive(Clone, Copy, PartialEq, Eq, Structural, Debug)]
pub struct MotionConfig {
    pub speed: i64,
    pub ground_friction: i64,
    pub air_friction: i64,
    pub jump_force: i64,
    pub gravity: i64,
}

impl MotionConfig {
    /// Well-formed tuning: both friction factors lie in (0, 1] of `SCALE`,
    /// gravity is non-negative, and every constant is small enough that a
    /// step cannot overflow.
    pub open spec fn wf(self) -> bool {
        &&& 0 < self.ground_friction <= SCALE
        &&& 0 < self.air_friction <= SCALE
        &&& 0 <= self.gravity <= CONFIG_LIMIT
        &&& -CONFIG_LIMIT <= self.speed <= CONFIG_LIMIT
        &&& -CONFIG_LIMIT <= self.jump_force <= CONFIG_LIMIT
    }
}

/// Truncating fixed-point rescale: the quotient `v / SCALE` rounded toward
/// zero, exactly as the executable signed division computes it.
pub open spec fn scaled(v: int) -> int {
    if v >= 0 {
        v / (SCALE as int)
    } else {
        -((-v) / (SCALE as int))
    }
}

/// Rescaling rounds toward zero, so it never increases a magnitude and never
/// flips a sign.
pub proof fn lemma_scaled_bounds(v: int)
    ensures
        v >= 0 ==> 0 <= scaled(v) <= v,
        v < 0 ==> v <= scaled(v) <= 0,
{
    if v >= 0 {
        lemma_div_pos_is_pos(v, SCALE as int);
        lemma_div_nonincreasing(v, SCALE as int);
    } else {
        lemma_div_pos_is_pos(-v, SCALE as int);
        lemma_div_nonincreasing(-v, SCALE as int);
    }
}

/// A value bounded by `bound * SCALE` rescales to a value bounded by `bound`.
pub proof fn lemma_scaled_magnitude(v: int, bound: int)
    requires
        0 <= bound,
        -(bound * (SCALE as int)) <= v <= bound * (SCALE as int),
    ensures
        -bound <= scaled(v) <= bound,
{
    if v >= 0 {
        lemma_div_pos_is_pos(v, SCALE as int);
        lemma_multiply_divide_le(v, SCALE as int, bound);
    } else {
        lemma_div_pos_is_pos(-v, SCALE as int);
        lemma_multiply_divide_le(-v, SCALE as int, bound);
    }
}

/// One application of a friction factor: the velocity is multiplied by
/// `friction / SCALE`, rounded toward zero.
pub open spec fn damp(v: int, friction: int) -> int {
    scaled(v * friction)
}

/// Damping with a friction factor in (0, 1] of `SCALE` never increases a
/// velocity's magnitude and never flips its sign.
pub proof fn lemma_damp_bounds(v: int, friction: int)
    requires
        0 < friction <= SCALE,
    ensures
        v >= 0 ==> 0 <= damp(v, friction) <= v,
        v < 0 ==> v <= damp(v, friction) <= 0,
{
    if v >= 0 {
        lemma_mul_nonnegative(v, friction);
        lemma_mul_inequality(friction, SCALE as int, v);
        lemma_mul_is_commutative(v, friction);
        lemma_div_pos_is_pos(v * friction, SCALE as int);
        lemma_multiply_divide_le(v * friction, SCALE as int, v);
    } else {
        let w = -v;
        lemma_mul_unary_negation(v, friction);
        lemma_mul_nonnegative(w, friction);
        lemma_mul_inequality(friction, SCALE as int, w);
        lemma_mul_is_commutative(w, friction);
        lemma_div_pos_is_pos(w * friction, SCALE as int);
        lemma_multiply_divide_le(w * friction, SCALE as int, w);
    }
}

/// With a friction factor strictly below `SCALE`, damping strictly shrinks
/// the magnitude of a nonzero velocity.
pub proof fn lemma_damp_strict(v: int, friction: int)
    requires
        0 < friction < SCALE,
        v != 0,
    ensures
        abs(damp(v, friction)) < abs(v),
{
    if v > 0 {
        lemma_mul_strictly_positive(v, friction);
        lemma_mul_strict_inequality(friction, SCALE as int, v);
        lemma_mul_is_commutative(v, friction);
        lemma_div_pos_is_pos(v * friction, SCALE as int);
        lemma_multiply_divide_lt(v * friction, SCALE as int, v);
    } else {
        let w = -v;
        lemma_mul_unary_negation(v, friction);
        lemma_mul_strictly_positive(w, friction);
        lemma_mul_strict_inequality(friction, SCALE as int, w);
        lemma_mul_is_commutative(w, friction);
        lemma_div_pos_is_pos(w * friction, SCALE as int);
        lemma_multiply_divide_lt(w * friction, SCALE as int, w);
    }
}

/// A friction factor of exactly `SCALE` leaves the velocity unchanged.
pub proof fn lemma_damp_identity(v: int)
    ensures
        damp(v, SCALE as int) == v,
{
    if v >= 0 {
        lemma_mul_is_commutative(v, SCALE as int);
        lemma_div_multiples_vanish(v, SCALE as int);
    } else {
        lemma_mul_unary_negation(v, SCALE as int);
        lemma_mul_is_commutative(-v, SCALE as int);
        lemma_div_multiples_vanish(-v, SCALE as int);
    }
}

/// Multiplies two fixed-point values and rescales the product back down,
/// rounding toward zero.
fn mul_scaled(a: i64, b: i64) -> (r: i64)
    requires
        i64::MIN <= a * b <= i64::MAX,
    ensures
        r == scaled(a * b),
{
    let p: i64 = a * b;
    proof {
        lemma_scaled_bounds(p as int);
    }
    p / SCALE
}

/// The per-character movement state: the velocity accumulated so far and the
/// grounded flag as last reported by the external collision system.
///
/// A character starts airborne with zero velocity and is then driven by
/// `on_grounded_changed` for every ground-contact transition and by `step`
/// once per simulation tick.
pub struct PlayerMotionState {
    pub velocity: Vec2,
    pub grounded: bool,
}

/// The state after a grounded-transition report: the flag is overwritten and
/// the velocity is untouched.
pub open spec fn with_grounded(s: PlayerMotionState, is_grounded: bool) -> PlayerMotionState {
    PlayerMotionState { grounded: is_grounded, ..s }
}

/// First rule of a step: a jump overwrites the vertical velocity with the
/// jump force scaled by the tick duration, and only fires on the ground.
pub open spec fn jump_rule(vy: int, grounded: bool, jump_pressed: bool, jump_force: int, dt: int) -> int {
    if jump_pressed && grounded {
        scaled(jump_force * dt)
    } else {
        vy
    }
}

/// Second and third rule: horizontal drift accumulated from the held
/// direction; the horizontal velocity is never reset, only accumulated.
pub open spec fn drift_rule(vx: int, input_direction: int, speed: int, dt: int) -> int {
    vx + input_direction * scaled(speed * dt)
}

/// Fourth rule: the grounded state selects which decay factor applies.
pub open spec fn friction_of(c: MotionConfig, grounded: bool) -> int {
    if grounded {
        c.ground_friction as int
    } else {
        c.air_friction as int
    }
}

/// Fifth rule: gravity pulls the vertical velocity down after damping, so
/// this tick's gravity contribution is itself undamped.
pub open spec fn gravity_rule(vy: int, gravity: int, dt: int) -> int {
    vy - scaled(gravity * dt)
}

/// The horizontal velocity after one tick: drift from the held direction,
/// then the friction decay selected by the grounded state.
pub open spec fn step_vx(vx: int, grounded: bool, input_direction: int, dt: int, c: MotionConfig) -> int {
    damp(drift_rule(vx, input_direction, c.speed as int, dt), friction_of(c, grounded))
}

/// The vertical velocity after one tick: the jump rule, then the friction
/// decay selected by the grounded state, then gravity.
pub open spec fn step_vy(vy: int, grounded: bool, jump_pressed: bool, dt: int, c: MotionConfig) -> int {
    gravity_rule(
        damp(
            jump_rule(vy, grounded, jump_pressed, c.jump_force as int, dt),
            friction_of(c, grounded),
        ),
        c.gravity as int,
        dt,
    )
}

/// Both factor magnitudes bound the product's magnitude.
proof fn lemma_product_bound(a: int, amax: int, b: int, bmax: int) by (nonlinear_arith)
    requires
        -amax <= a <= amax,
        0 <= b <= bmax,
    ensures
        -(amax * bmax) <= a * b <= amax * bmax,
{
}

impl PlayerMotionState {
    /// Velocity small enough on both axes for a step to be taken.
    pub open spec fn wf(self) -> bool {
        &&& -VEL_LIMIT <= self.velocity.x <= VEL_LIMIT
        &&& -VEL_LIMIT <= self.velocity.y <= VEL_LIMIT
    }

    /// A freshly spawned character: zero velocity, airborne until the first
    /// contact event arrives.
    pub fn new() -> (s: Self)
        ensures
            s.velocity.x == 0,
            s.velocity.y == 0,
            !s.grounded,
            s.wf(),
    {
        PlayerMotionState { velocity: Vec2 { x: 0, y: 0 }, grounded: false }
    }

    /// Records a ground-contact transition reported by the external collision
    /// system. Only the flag changes; reporting the same value again has no
    /// further effect.
    pub fn on_grounded_changed(&mut self, is_grounded: bool)
        ensures
            *final(self) == with_grounded(*old(self), is_grounded),
    {
        self.grounded = is_grounded;
    }

    /// Advances the state by one simulation tick and returns the desired
    /// translation for the external kinematic mover.
    ///
    /// The new velocity is exactly `step_vx`/`step_vy` applied to the old
    /// state: jump (only if grounded), horizontal drift, friction decay,
    /// gravity, in that order. The grounded flag is not touched.
    pub fn step(
        &mut self,
        input_direction: i64,
        jump_pressed: bool,
        dt: i64,
        config: &MotionConfig,
    ) -> (translation: Vec2)
        requires
            -1 <= input_direction <= 1,
            0 <= dt <= DT_LIMIT,
            config.wf(),
            old(self).wf(),
        ensures
            final(self).grounded == old(self).grounded,
            final(self).velocity.x == step_vx(
                old(self).velocity.x as int,
                old(self).grounded,
                input_direction as int,
                dt as int,
                *config,
            ),
            final(self).velocity.y == step_vy(
                old(self).velocity.y as int,
                old(self).grounded,
                jump_pressed,
                dt as int,
                *config,
            ),
            translation == final(self).velocity,
            -2 * VEL_LIMIT <= final(self).velocity.x <= 2 * VEL_LIMIT,
            -2 * VEL_LIMIT <= final(self).velocity.y <= 2 * VEL_LIMIT,
    {
        if jump_pressed && self.grounded {
            proof {
                lemma_product_bound(
                    config.jump_force as int,
                    CONFIG_LIMIT as int,
                    dt as int,
                    DT_LIMIT as int,
                );
                lemma_scaled_magnitude(config.jump_force as int * dt as int, VEL_LIMIT as int);
            }
            self.velocity.y = mul_scaled(config.jump_force, dt);
        }

        proof {
            lemma_product_bound(config.speed as int, CONFIG_LIMIT as int, dt as int, DT_LIMIT as int);
            lemma_scaled_magnitude(config.speed as int * dt as int, VEL_LIMIT as int);
        }
        let drift: i64 = mul_scaled(config.speed, dt);
        assert(-(VEL_LIMIT as int) <= input_direction * drift <= VEL_LIMIT as int)
            by (nonlinear_arith)
            requires
                -1 <= input_direction <= 1,
                -(VEL_LIMIT as int) <= drift <= VEL_LIMIT as int,
        ;
        self.velocity.x = self.velocity.x + input_direction * drift;

        let friction: i64 = if self.grounded {
            config.ground_friction
        } else {
            config.air_friction
        };
        proof {
            lemma_product_bound(
                self.velocity.x as int,
                2 * VEL_LIMIT as int,
                friction as int,
                SCALE as int,
            );
            lemma_damp_bounds(self.velocity.x as int, friction as int);
        }
        self.velocity.x = mul_scaled(self.velocity.x, friction);

        proof {
            lemma_product_bound(
                self.velocity.y as int,
                VEL_LIMIT as int,
                friction as int,
                SCALE as int,
            );
            lemma_damp_bounds(self.velocity.y as int, friction as int);
        }
        self.velocity.y = mul_scaled(self.velocity.y, friction);

        proof {
            lemma_product_bound(config.gravity as int, CONFIG_LIMIT as int, dt as int, DT_LIMIT as int);
            lemma_scaled_magnitude(config.gravity as int * dt as int, VEL_LIMIT as int);
        }
        let pull: i64 = mul_scaled(config.gravity, dt);
        self.velocity.y = self.velocity.y - pull;

        self.velocity
    }
}

} // verus!

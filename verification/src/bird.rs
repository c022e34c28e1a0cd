//! Bird kinematics: vertical velocity under gravity, the flap override, the
//! position integration, and the derived (purely cosmetic) tilt rotation.

use vstd::prelude::*;
use crate::arith::{add_mul_clipped, clip, sub_mul_clipped};
use crate::config::Config;

verus! {

/// The single controllable entity. Position is in micro-units, vertical
/// velocity in milli-units per second. The tilt rotation is never stored:
/// it is a projection of the velocity, see `bird_rotation_millideg`.
#[derive(Clone, Copy, PartialEq, Eq, Structural, Debug)]
pub struct Bird {
    pub x: i64,
    pub y: i64,
    pub y_velocity: i64,
}

impl Bird {
    /// The bird as created at startup and after every reset: at the world
    /// origin, at rest.
    pub open spec fn at_origin() -> Bird {
        Bird { x: 0, y: 0, y_velocity: 0 }
    }

    /// Builds the startup bird.
    pub fn new() -> (b: Bird)
        ensures
            b == Bird::at_origin(),
    {
        Bird { x: 0, y: 0, y_velocity: 0 }
    }
}

/// The vertical velocity after one tick: a jump overrides the velocity with
/// `flap_force` before gravity is applied, and gravity is applied on every
/// tick, the flap tick included.
pub open spec fn step_velocity(cfg: Config, v: int, dt: int, jump: bool) -> int {
    clip((if jump {
        cfg.flap_force as int
    } else {
        v
    }) - cfg.gravity * dt)
}

/// The bird after one tick: velocity first, then the position integrated with
/// the new velocity. The horizontal position never changes.
pub open spec fn step_bird(cfg: Config, b: Bird, dt: int, jump: bool) -> Bird {
    let v = step_velocity(cfg, b.y_velocity as int, dt, jump);
    Bird { x: b.x, y: clip(b.y + v * dt) as i64, y_velocity: v as i64 }
}

impl Bird {
    /// Advances the bird by one tick of `dt_ms` milliseconds, overriding the
    /// velocity with the flap force when `jump` is set.
    pub fn update_kinematics(&mut self, cfg: &Config, dt_ms: u32, jump: bool)
        requires
            cfg.valid(),
        ensures
            *final(self) == step_bird(*cfg, *old(self), dt_ms as int, jump),
    {
        let base: i64 = if jump {
            cfg.flap_force
        } else {
            self.y_velocity
        };
        let v: i64 = sub_mul_clipped(base, cfg.gravity, dt_ms);
        self.y_velocity = v;
        self.y = add_mul_clipped(self.y, v, dt_ms);
    }
}

/// Magnitude part of the derived rotation: `m * 1000 / ratio_milli` capped at
/// ninety thousand milli-degrees, for a non-negative magnitude `m`.
pub open spec fn rotation_magnitude(cfg: Config, m: int) -> int {
    if m * 1000 / (cfg.velocity_to_rotation_ratio_milli as int) > 90_000 {
        90_000
    } else {
        m * 1000 / (cfg.velocity_to_rotation_ratio_milli as int)
    }
}

/// The derived visual tilt of the bird, in milli-degrees: the velocity divided
/// by the rotation ratio, clamped to plus or minus ninety degrees. Purely
/// cosmetic; never used in collision.
pub open spec fn rotation_millideg(cfg: Config, v: int) -> int {
    if v >= 0 {
        rotation_magnitude(cfg, v)
    } else {
        -rotation_magnitude(cfg, -v)
    }
}

/// Computes the derived tilt of a bird with vertical velocity `y_velocity`.
/// Whatever the velocity, the result stays within plus or minus ninety
/// degrees.
pub fn bird_rotation_millideg(cfg: &Config, y_velocity: i64) -> (r: i64)
    requires
        cfg.valid(),
    ensures
        r == rotation_millideg(*cfg, y_velocity as int),
        -90_000 <= r <= 90_000,
{
    let wide: i128 = y_velocity as i128;
    let neg: bool = wide < 0;
    let mag: u128 = if neg {
        (-wide) as u128
    } else {
        wide as u128
    };
    let q: u128 = (mag * 1000) / (cfg.velocity_to_rotation_ratio_milli as u128);
    let capped: u128 = if q > 90_000 {
        90_000
    } else {
        q
    };
    proof {
        if neg {
            assert(mag as int == -(y_velocity as int));
        } else {
            assert(mag as int == y_velocity as int);
        }
        assert(q as int == (mag as int) * 1000 / (cfg.velocity_to_rotation_ratio_milli as int));
    }
    if neg {
        -(capped as i64)
    } else {
        capped as i64
    }
}

/// Gravity monotonicity: on a tick without a jump, as long as the velocity
/// does not saturate, the velocity drops by exactly `gravity * dt`, and
/// strictly drops whenever gravity and the delta are positive.
pub proof fn lemma_gravity_monotonic(cfg: Config, v: int, dt: int)
    requires
        cfg.valid(),
        1 <= cfg.gravity,
        1 <= dt,
        i64::MIN + cfg.gravity * dt <= v <= i64::MAX,
    ensures
        step_velocity(cfg, v, dt, false) == v - cfg.gravity * dt,
        step_velocity(cfg, v, dt, false) < v,
{
    assert(1 <= cfg.gravity * dt) by (nonlinear_arith)
        requires
            1 <= cfg.gravity,
            1 <= dt,
    ;
}

/// Flap override: a jump sets the velocity to exactly `flap_force` before
/// gravity, so the post-tick velocity is `flap_force - gravity * dt` whatever
/// the velocity was before; in particular two birds that both flap end the
/// tick with the same velocity.
pub proof fn lemma_flap_override(cfg: Config, v1: int, v2: int, dt: int)
    requires
        cfg.valid(),
        0 <= dt,
        i64::MIN <= cfg.flap_force - cfg.gravity * dt,
    ensures
        step_velocity(cfg, v1, dt, true) == cfg.flap_force - cfg.gravity * dt,
        step_velocity(cfg, v1, dt, true) == step_velocity(cfg, v2, dt, true),
{
    assert(0 <= cfg.gravity * dt) by (nonlinear_arith)
        requires
            0 <= cfg.gravity,
            0 <= dt,
    ;
}

/// Rotation clamp: for every velocity, the derived rotation stays within
/// plus or minus ninety degrees.
pub proof fn lemma_rotation_clamp(cfg: Config, v: int)
    requires
        cfg.valid(),
    ensures
        -90_000 <= rotation_millideg(cfg, v) <= 90_000,
{
    let r = cfg.velocity_to_rotation_ratio_milli as int;
    if v >= 0 {
        assert(0 <= v * 1000 / r) by (nonlinear_arith)
            requires
                0 <= v,
                1 <= r,
        ;
    } else {
        assert(0 <= (-v) * 1000 / r) by (nonlinear_arith)
            requires
                0 < -v,
                1 <= r,
        ;
    }
}

} // verus!

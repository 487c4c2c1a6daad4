//! Interpolation state machine: between high-fidelity updates a body's
//! rendered translation is extrapolated from its last known velocity (dead
//! reckoning), so visual motion stays smooth while expensive propagation
//! runs at a much lower rate.
//!
//! Positions reported by the high-fidelity propagator are held in
//! millimeters, rendered translations in micro-world-units, velocities in
//! millimeters per second; the unit scale factor is in micro-world-units
//! per kilometer and the simulation speed in micro-units.

use vstd::prelude::*;

verus! {

/// Largest admissible velocity component magnitude, in mm/s (100 km/s).
pub const MAX_VELOCITY_MM_S: i64 = 100_000_000;

/// Largest admissible position component magnitude, in mm (1e9 km).
pub const MAX_POSITION_MM: i64 = 1_000_000_000_000_000;

/// Largest admissible unit scale factor, in micro-world-units per km.
pub const MAX_SCALE_MICRO: u64 = 1_000_000_000;

/// Largest admissible simulation speed multiplier, in micro-units (10000x).
pub const MAX_SPEED_MICRO: u64 = 10_000_000_000;

/// Largest admissible frame delta, in milliseconds (1000 s).
pub const MAX_FRAME_MS: u64 = 1_000_000;

/// Largest translation component magnitude that extrapolation accepts.
pub const MAX_TRANSLATION: i64 = 8_000_000_000_000_000_000;

/// A fixed-point three-component vector.
#[derive(Clone, Copy, Debug, PartialEq, Eq, Structural)]
pub struct Vec3Fix {
    pub x: i64,
    pub y: i64,
    pub z: i64,
}

impl Vec3Fix {
    /// The zero vector.
    pub fn zero() -> (r: Vec3Fix)
        ensures
            r == (Vec3Fix { x: 0, y: 0, z: 0 }),
    {
        Vec3Fix { x: 0, y: 0, z: 0 }
    }

    /// Every component is at most `bound` in magnitude.
    pub open spec fn bounded(&self, bound: int) -> bool {
        &&& -bound <= self.x <= bound
        &&& -bound <= self.y <= bound
        &&& -bound <= self.z <= bound
    }
}

/// A position/velocity prediction produced by the high-fidelity propagator,
/// brought into fixed-point units: position in millimeters, velocity in
/// millimeters per second.
#[derive(Clone, Copy, Debug, PartialEq, Eq, Structural)]
pub struct Prediction {
    pub position: Vec3Fix,
    pub velocity: Vec3Fix,
}

/// Per-body propagation state: either no high-fidelity prediction has ever
/// arrived (the body is inert), or the last prediction's position and
/// velocity are known.  `just_propagated` is a one-shot flag consumed by
/// the very next extrapolation tick, so the frame in which the
/// authoritative position arrived is not advanced a second time.
#[derive(Clone, Copy, Debug, PartialEq, Eq, Structural)]
pub enum PropagationStatus {
    NotPropagated,
    Propagated { velocity: Vec3Fix, position: Vec3Fix, just_propagated: bool },
}

/// One rendered-translation component scaled from a position component in
/// millimeters: `p * scale / 1e6`, truncated toward zero.
pub open spec fn scaled_translation_component(p: int, scale: int) -> int {
    if p >= 0 {
        p * scale / 1_000_000
    } else {
        -((-p) * scale / 1_000_000)
    }
}

/// The rendered translation of a position given in millimeters.
pub open spec fn scaled_translation(p: Vec3Fix, scale: int) -> Vec3Fix {
    Vec3Fix {
        x: scaled_translation_component(p.x as int, scale) as i64,
        y: scaled_translation_component(p.y as int, scale) as i64,
        z: scaled_translation_component(p.z as int, scale) as i64,
    }
}

/// One translation component advanced by dead reckoning:
/// `t + v * scale * speed * dt / 1e15`, the product truncated toward zero.
pub open spec fn advanced_component(t: int, v: int, scale: int, speed: int, dt: int) -> int {
    if v >= 0 {
        t + v * scale * speed * dt / 1_000_000_000_000_000
    } else {
        t - (-v) * scale * speed * dt / 1_000_000_000_000_000
    }
}

/// A translation advanced by one dead-reckoning step.
pub open spec fn advanced_translation(
    t: Vec3Fix,
    v: Vec3Fix,
    scale: int,
    speed: int,
    dt: int,
) -> Vec3Fix {
    Vec3Fix {
        x: advanced_component(t.x as int, v.x as int, scale, speed, dt) as i64,
        y: advanced_component(t.y as int, v.y as int, scale, speed, dt) as i64,
        z: advanced_component(t.z as int, v.z as int, scale, speed, dt) as i64,
    }
}

/// The velocity recorded in a propagated status is at most `bound` in
/// magnitude; an inert status constrains nothing.
pub open spec fn status_velocity_bounded(s: PropagationStatus, bound: int) -> bool {
    match s {
        PropagationStatus::NotPropagated => true,
        PropagationStatus::Propagated { velocity, .. } => velocity.bounded(bound),
    }
}

/// What one extrapolation tick does to a body's state and translation.
pub open spec fn dead_reckon_step(
    status: PropagationStatus,
    translation: Vec3Fix,
    scale: int,
    speed: int,
    dt: int,
) -> (PropagationStatus, Vec3Fix) {
    match status {
        PropagationStatus::NotPropagated => (status, translation),
        PropagationStatus::Propagated { velocity, position, just_propagated } => {
            if just_propagated {
                (
                    PropagationStatus::Propagated { velocity, position, just_propagated: false },
                    translation,
                )
            } else {
                (status, advanced_translation(translation, velocity, scale, speed, dt))
            }
        },
    }
}

/// One translation component advanced by dead reckoning, computed exactly.
fn advance_component(t: i64, v: i64, scale: u64, speed: u64, dt: u64) -> (r: i64)
    requires
        -MAX_VELOCITY_MM_S <= v <= MAX_VELOCITY_MM_S,
        scale <= MAX_SCALE_MICRO,
        speed <= MAX_SPEED_MICRO,
        dt <= MAX_FRAME_MS,
        -MAX_TRANSLATION <= t <= MAX_TRANSLATION,
    ensures
        r == advanced_component(t as int, v as int, scale as int, speed as int, dt as int),
{
    let magnitude: u64 = if v >= 0 {
        v as u64
    } else {
        (-v) as u64
    };
    proof {
        assert(magnitude * scale <= 100_000_000 * 1_000_000_000) by (nonlinear_arith)
            requires 0 <= magnitude <= 100_000_000, 0 <= scale <= 1_000_000_000;
        assert(magnitude * scale * speed <= 100_000_000_000_000_000 * 10_000_000_000)
            by (nonlinear_arith)
            requires
                0 <= magnitude * scale <= 100_000_000_000_000_000,
                0 <= speed <= 10_000_000_000;
        assert(magnitude * scale * speed * dt
            <= 1_000_000_000_000_000_000_000_000_000 * 1_000_000)
            by (nonlinear_arith)
            requires
                0 <= magnitude * scale * speed <= 1_000_000_000_000_000_000_000_000_000,
                0 <= dt <= 1_000_000;
    }
    let product: u128 = (magnitude as u128) * (scale as u128) * (speed as u128) * (dt as u128);
    proof {
        vstd::arithmetic::div_mod::lemma_div_is_ordered(
            product as int,
            1_000_000_000_000_000_000_000_000_000_000_000,
            1_000_000_000_000_000,
        );
    }
    let step: u128 = product / 1_000_000_000_000_000;
    if v >= 0 {
        t + (step as i64)
    } else {
        t - (step as i64)
    }
}

/// Applies a freshly drained high-fidelity prediction to a body: the
/// translation snaps to the scaled predicted position and the status records
/// the prediction with its one-shot `just_propagated` flag set.
pub fn apply_prediction(
    status: &mut PropagationStatus,
    translation: &mut Vec3Fix,
    position: Vec3Fix,
    velocity: Vec3Fix,
    scale: u64,
)
    requires
        position.bounded(MAX_POSITION_MM as int),
        scale <= MAX_SCALE_MICRO,
    ensures
        *final(status) == (PropagationStatus::Propagated {
            velocity,
            position,
            just_propagated: true,
        }),
        *final(translation) == scaled_translation(position, scale as int),
        final(translation).bounded(1_000_000_000_000_000_000),
{
    let x: i64 = scale_component(position.x, scale);
    let y: i64 = scale_component(position.y, scale);
    let z: i64 = scale_component(position.z, scale);
    *translation = Vec3Fix { x, y, z };
    *status = PropagationStatus::Propagated { velocity, position, just_propagated: true };
}

/// One rendered-translation component scaled from millimeters.
fn scale_component(p: i64, scale: u64) -> (r: i64)
    requires
        -MAX_POSITION_MM <= p <= MAX_POSITION_MM,
        scale <= MAX_SCALE_MICRO,
    ensures
        r == scaled_translation_component(p as int, scale as int),
        -1_000_000_000_000_000_000 <= r <= 1_000_000_000_000_000_000,
{
    let magnitude: u64 = if p >= 0 {
        p as u64
    } else {
        (-p) as u64
    };
    proof {
        assert(magnitude * scale <= 1_000_000_000_000_000 * 1_000_000_000) by (nonlinear_arith)
            requires 0 <= magnitude <= 1_000_000_000_000_000, 0 <= scale <= 1_000_000_000;
    }
    let product: u128 = (magnitude as u128) * (scale as u128);
    proof {
        vstd::arithmetic::div_mod::lemma_div_is_ordered(
            product as int,
            1_000_000_000_000_000_000_000_000,
            1_000_000,
        );
    }
    let scaled: u128 = product / 1_000_000;
    if p >= 0 {
        scaled as i64
    } else {
        -(scaled as i64)
    }
}

/// One extrapolation tick for one body, run every frame.
///
/// A body with no prediction yet is inert.  A body whose prediction arrived
/// since the last frame consumes its one-shot flag and does not move: the
/// authoritative position was just applied.  Any other propagated body
/// advances its translation by `velocity * scale * speed * dt`, a
/// constant-velocity approximation between high-fidelity updates.
pub fn approximate_propagation(
    status: &mut PropagationStatus,
    translation: &mut Vec3Fix,
    scale: u64,
    speed: u64,
    dt: u64,
)
    requires
        scale <= MAX_SCALE_MICRO,
        speed <= MAX_SPEED_MICRO,
        dt <= MAX_FRAME_MS,
        old(translation).bounded(MAX_TRANSLATION as int),
        status_velocity_bounded(*old(status), MAX_VELOCITY_MM_S as int),
    ensures
        (*final(status), *final(translation)) == dead_reckon_step(
            *old(status),
            *old(translation),
            scale as int,
            speed as int,
            dt as int,
        ),
{
    match *status {
        PropagationStatus::NotPropagated => {},
        PropagationStatus::Propagated { velocity, position, just_propagated } => {
            if just_propagated {
                *status = PropagationStatus::Propagated {
                    velocity,
                    position,
                    just_propagated: false,
                };
            } else {
                let x: i64 = advance_component(translation.x, velocity.x, scale, speed, dt);
                let y: i64 = advance_component(translation.y, velocity.y, scale, speed, dt);
                let z: i64 = advance_component(translation.z, velocity.z, scale, speed, dt);
                *translation = Vec3Fix { x, y, z };
            }
        },
    }
}

/// Once a body has received a prediction it never falls back to the inert
/// state: extrapolation ticks keep it propagated, whatever the scale,
/// speed and frame delta.
pub proof fn lemma_no_transition_back_to_inert(
    status: PropagationStatus,
    translation: Vec3Fix,
    scale: int,
    speed: int,
    dt: int,
)
    requires
        status is Propagated,
    ensures
        dead_reckon_step(status, translation, scale, speed, dt).0 is Propagated,
{
}

/// Dead reckoning consumes the one-shot flag in exactly one tick.
///
/// Immediately after a prediction is applied, the first extrapolation tick
/// leaves the translation unchanged and only clears the flag; the second
/// tick advances the translation by exactly
/// `velocity * scale * speed * dt / 1e15` per component.
pub proof fn lemma_dead_reckoning_one_shot(
    position: Vec3Fix,
    velocity: Vec3Fix,
    translation: Vec3Fix,
    scale: int,
    speed: int,
    dt1: int,
    dt2: int,
)
    ensures
        ({
            let fresh = PropagationStatus::Propagated {
                velocity,
                position,
                just_propagated: true,
            };
            let (s1, t1) = dead_reckon_step(fresh, translation, scale, speed, dt1);
            let (s2, t2) = dead_reckon_step(s1, t1, scale, speed, dt2);
            &&& t1 == translation
            &&& s1 == (PropagationStatus::Propagated {
                velocity,
                position,
                just_propagated: false,
            })
            &&& t2 == advanced_translation(translation, velocity, scale, speed, dt2)
            &&& s2 == s1
        }),
{
}

} // verus!

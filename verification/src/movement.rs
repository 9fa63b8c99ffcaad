//! Steering and throttle.
//!
//! The friction that grows with speed multiplies a rate by
//! `(1 - friction)^dt`. The caller works that factor out for the frame
//! and hands it over as a `Decay`, together with the rotation that
//! belongs to each entity's angle.

use vstd::prelude::*;
use crate::cvars::{Cvars, MovementStats};
use crate::components::VehicleType;
use crate::entity_store::{Components, EntityStore, Slot};
use crate::fixed::{
    directed, limit_magnitude, limited, saturate, saturated, scaled_product, slow_down, slowed,
    times, toward, Rotation, Vec2,
};
use crate::game_state::{GameState, Input};

verus! {

/// The factors by which the friction that grows with speed multiplies in
/// one frame: `(1 - turn_rate_friction_linear)^dt` for the turn rate and
/// `(1 - friction_linear)^dt` for the velocity.
#[derive(Clone, Copy, Debug, PartialEq, Eq, Structural)]
pub struct Decay {
    pub turn_rate: i64,
    pub velocity: i64,
}

/// The turn rate after one frame: the steering input pushes it, constant
/// friction pulls it toward zero without crossing, the decay shrinks it,
/// and the largest turn rate caps it.
pub open spec fn steered(stats: MovementStats, turn_rate: i64, axis: int, dt: i64, decay: i64)
    -> i64 {
    let pushed = saturate(
        turn_rate + saturate(
            toward(axis, saturate(scaled_product(stats.turn_rate_increase as int, dt as int)) as int),
        ),
    );
    let braked = slowed(
        pushed,
        saturate(scaled_product(stats.turn_rate_friction_const as int, dt as int)),
    );
    let decayed = saturate(scaled_product(braked as int, decay as int));
    limit_magnitude(decayed as int, stats.turn_rate_max as int) as i64
}

/// The turn rate after one frame.
pub fn steer(stats: &MovementStats, turn_rate: i64, input: &Input, dt: i64, decay: i64) -> (r: i64)
    ensures
        r == steered(*stats, turn_rate, input.spec_right_left(), dt, decay),
{
    let pushed = crate::fixed::plus(
        turn_rate,
        directed(input.right_left(), times(stats.turn_rate_increase, dt)),
    );
    let braked = slow_down(pushed, times(stats.turn_rate_friction_const, dt));
    let decayed = times(braked, decay);
    limited(decayed, stats.turn_rate_max)
}

/// The smaller of a scalar and a length.
pub open spec fn at_most(x: i64, length: int) -> i64 {
    if x <= length {
        x
    } else {
        saturate(length)
    }
}

/// Whether a velocity is faster than `speed_max`.
pub open spec fn too_fast(v: Vec2, speed_max: i64) -> bool {
    v.spec_magnitude_squared() > speed_max * speed_max
}

/// The velocity after one frame: the throttle input pushes it along
/// `facing`, constant friction takes off up to the whole speed along the
/// velocity's own direction, the decay shrinks it, and the largest speed
/// caps it. A velocity of length zero has no direction and stays as the
/// push left it.
pub open spec fn accelerated(
    stats: MovementStats,
    vel: Vec2,
    axis: int,
    dt: i64,
    facing: Rotation,
    decay: i64,
) -> Vec2 {
    let push = saturate(
        toward(axis, saturate(scaled_product(stats.accel_forward as int, dt as int)) as int),
    );
    let pushed = vel.spec_plus(Vec2 { x: facing.cos, y: facing.sin }.spec_scaled(push));
    let direction = pushed.spec_normalized();
    let brake = at_most(
        saturate(scaled_product(stats.friction_const as int, dt as int)),
        pushed.spec_magnitude(),
    );
    let decayed = pushed.spec_minus(direction.spec_scaled(brake)).spec_scaled(decay);
    if too_fast(decayed, stats.speed_max) {
        direction.spec_scaled(stats.speed_max)
    } else {
        decayed
    }
}

/// The velocity after one frame.
pub fn accelerate(
    stats: &MovementStats,
    vel: Vec2,
    input: &Input,
    dt: i64,
    facing: Rotation,
    decay: i64,
) -> (r: Vec2)
    ensures
        r == accelerated(*stats, vel, input.spec_up_down(), dt, facing, decay),
{
    let push = directed(input.up_down(), times(stats.accel_forward, dt));
    let pushed = vel.plus(Vec2 { x: facing.cos, y: facing.sin }.scaled(push));
    let direction = pushed.normalized();
    let friction = times(stats.friction_const, dt);
    let length = pushed.magnitude();
    let brake = if (friction as i128) <= (length as i128) {
        friction
    } else {
        saturated(length as i128)
    };
    let decayed = pushed.minus(direction.scaled(brake)).scaled(decay);
    assert(0 <= stats.speed_max * stats.speed_max <= 0x4000_0000_0000_0000_0000_0000_0000_0000)
        by (nonlinear_arith)
        requires
            -0x8000_0000_0000_0000 <= stats.speed_max <= 0x7fff_ffff_ffff_ffff,
    ;
    let limit: i128 = (stats.speed_max as i128) * (stats.speed_max as i128);
    if decayed.magnitude_squared() > limit as u128 {
        direction.scaled(stats.speed_max)
    } else {
        decayed
    }
}

/// Whether the occupant of `slot` moves by input: it has a position, a
/// velocity, an angle, a turn rate and an input.
pub open spec fn is_driven(slot: Slot) -> bool {
    &&& slot.entity.is_some()
    &&& slot.entity.unwrap().pos.is_some()
    &&& slot.entity.unwrap().vel.is_some()
    &&& slot.entity.unwrap().angle.is_some()
    &&& slot.entity.unwrap().turn_rate.is_some()
    &&& slot.entity.unwrap().input.is_some()
}

/// `slot` after one frame of steering and throttle, for an occupant that
/// faces along `facing`.
pub open spec fn slot_after_movement(
    stats: MovementStats,
    slot: Slot,
    dt: i64,
    facing: Rotation,
    decay: Decay,
) -> Slot {
    let c = slot.entity.unwrap();
    Slot {
        generation: slot.generation,
        entity: Some(
            Components {
                turn_rate: Some(
                    steered(
                        stats,
                        c.turn_rate.unwrap(),
                        c.input.unwrap().spec_right_left(),
                        dt,
                        decay.turn_rate,
                    ),
                ),
                vel: Some(
                    accelerated(
                        stats,
                        c.vel.unwrap(),
                        c.input.unwrap().spec_up_down(),
                        dt,
                        facing,
                        decay.velocity,
                    ),
                ),
                ..c
            },
        ),
    }
}

/// The angles of the entities that move by input, by slot. The caller
/// finds the rotation that belongs to each before `movement` runs.
pub fn headings(store: &EntityStore) -> (r: Vec<Option<i64>>)
    ensures
        r@.len() == store@.len(),
        forall|i: int|
            0 <= i < store@.len() ==> #[trigger] r@[i] == if is_driven(store@[i]) {
                store@[i].entity.unwrap().angle
            } else {
                None
            },
{
    let mut r: Vec<Option<i64>> = Vec::new();
    let n = store.slots.len();
    let mut i: usize = 0;
    while i < n
        invariant
            i <= n,
            n == store@.len(),
            r@.len() == i,
            forall|k: int|
                0 <= k < i ==> #[trigger] r@[k] == if is_driven(store@[k]) {
                    store@[k].entity.unwrap().angle
                } else {
                    None
                },
        decreases n - i,
    {
        let mut heading: Option<i64> = None;
        if let Some(c) = store.slots[i].entity {
            if c.pos.is_some() && c.vel.is_some() && c.turn_rate.is_some() && c.input.is_some() {
                heading = c.angle;
            }
        }
        r.push(heading);
        i += 1;
    }
    r
}

/// Steering and throttle for every entity that moves by input, with the
/// tuning values of the tank.
///
/// `facings` holds, by slot, the rotation that belongs to the entity's
/// angle. An entity whose slot has none is left alone in this frame.
/// Positions do not change here.
pub fn movement(
    cvars: &Cvars,
    store: &mut EntityStore,
    gs: &GameState,
    facings: &Vec<Rotation>,
    decay: Decay,
)
    ensures
        final(store)@.len() == old(store)@.len(),
        forall|i: int|
            0 <= i < old(store)@.len() ==> #[trigger] final(store)@[i] == if is_driven(
                old(store)@[i],
            ) && i < facings@.len() {
                slot_after_movement(
                    cvars.vehicle_movement_stats(VehicleType::Tank),
                    old(store)@[i],
                    gs.dt,
                    facings@[i],
                    decay,
                )
            } else {
                old(store)@[i]
            },
{
    let stats = cvars.g_vehicle_movement_stats(VehicleType::Tank);
    let n = store.slots.len();
    let mut i: usize = 0;
    while i < n
        invariant
            i <= n,
            n == old(store)@.len(),
            store@.len() == n,
            stats == cvars.vehicle_movement_stats(VehicleType::Tank),
            forall|k: int|
                0 <= k < i ==> #[trigger] store@[k] == if is_driven(old(store)@[k]) && k
                    < facings@.len() {
                    slot_after_movement(stats, old(store)@[k], gs.dt, facings@[k], decay)
                } else {
                    old(store)@[k]
                },
            forall|k: int| i <= k < n ==> #[trigger] store@[k] == old(store)@[k],
        decreases n - i,
    {
        let slot = store.slots[i];
        if i < facings.len() {
            if let Some(c) = slot.entity {
                if let (Some(_), Some(vel), Some(_), Some(turn_rate), Some(input)) = (
                    c.pos,
                    c.vel,
                    c.angle,
                    c.turn_rate,
                    c.input,
                ) {
                    let mut c2 = c;
                    c2.turn_rate = Some(steer(&stats, turn_rate, &input, gs.dt, decay.turn_rate));
                    c2.vel = Some(
                        accelerate(&stats, vel, &input, gs.dt, facings[i], decay.velocity),
                    );
                    store.slots[i] = Slot { generation: slot.generation, entity: Some(c2) };
                }
            }
        }
        i += 1;
    }
}

} // verus!

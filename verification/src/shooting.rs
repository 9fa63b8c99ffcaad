//! Firing weapons.
//!
//! Firing takes two steps. `shooting` decides which vehicles fire and
//! uses up their ammo; it returns one `Shot` per vehicle that fired.
//! `launch` then creates what a shot sends out. In between, the caller
//! works out the `Aim` of each shot: the rotations that belong to its
//! angles, the random spread, and what the map says about a rail beam.

use vstd::prelude::*;
use crate::components::{EntityId, Weapon};
use crate::cvars::{Cvars, Hardpoint};
use crate::entity_store::{next_id, with_created, Components, EntityStore, Slot};
use crate::fixed::{plus, saturate, scaled_product, times, Rotation, Vec2};
use crate::game_state::{GameState, Input, RailBeam};
use crate::random::{cluster_size, ClusterSample};
use crate::systems::id_of;

verus! {

/// How far a rail beam reaches.
pub const RAIL_RANGE: i64 = 100_000_000_000;

/// A shot that a vehicle has fired: who fired which weapon, how the
/// weapon is mounted, and where the vehicle was and how it moved.
#[derive(Clone, Copy, Debug, PartialEq, Eq, Structural)]
pub struct Shot {
    pub owner: EntityId,
    pub weapon: Weapon,
    pub hardpoint: Hardpoint,
    /// Where the weapon sits, relative to the part that carries it.
    pub weapon_offset: Vec2,
    /// Where the turret sits on the chassis.
    pub turret_offset: Vec2,
    pub pos: Vec2,
    pub vel: Vec2,
    /// The angle of the hull.
    pub hull_angle: i64,
    /// The angle of the shot: that of the hull, plus that of the turret
    /// for a weapon on the turret.
    pub shot_angle: i64,
}

/// Whether the occupant of `slot` is a vehicle that can fire at all: one
/// with a position, a velocity and an angle.
pub open spec fn is_armed(slot: Slot) -> bool {
    &&& slot.entity.is_some()
    &&& slot.entity.unwrap().vehicle.is_some()
    &&& slot.entity.unwrap().pos.is_some()
    &&& slot.entity.unwrap().vel.is_some()
    &&& slot.entity.unwrap().angle.is_some()
}

/// Whether the vehicle in `slot` fires `weapon` at time `now`: the fire
/// input is set, the vehicle is no wreck, and the weapon is ready.
pub open spec fn fires(slot: Slot, input: Input, weapon: Weapon, now: i64) -> bool {
    &&& is_armed(slot)
    &&& input.fire
    &&& !slot.entity.unwrap().vehicle.unwrap().destroyed
    &&& slot.entity.unwrap().vehicle.unwrap().ammo(weapon).ready(now)
}

/// `slot` after its vehicle has fired `weapon`: one shot less, and the
/// reload under way if that was the last one.
pub open spec fn slot_after_shot(cvars: &Cvars, slot: Slot, weapon: Weapon, now: i64) -> Slot {
    let c = slot.entity.unwrap();
    let v = c.vehicle.unwrap();
    Slot {
        generation: slot.generation,
        entity: Some(
            Components {
                vehicle: Some(
                    v.with_ammo(
                        weapon,
                        v.ammo(weapon).after_shot(
                            now,
                            cvars.weapon_refire(weapon),
                            cvars.weapon_reload_time(weapon),
                        ),
                    ),
                ),
                ..c
            },
        ),
    }
}

/// The angle of a shot from a weapon on `hardpoint`.
pub open spec fn shot_angle(hardpoint: Hardpoint, hull_angle: i64, turret_angle: i64) -> i64 {
    match hardpoint {
        Hardpoint::Chassis => hull_angle,
        Hardpoint::Turret => saturate(hull_angle + turret_angle),
    }
}

/// The shot that the vehicle `id` with the parts `c` fires from `weapon`.
pub open spec fn shot_of(cvars: &Cvars, id: EntityId, c: Components, weapon: Weapon) -> Shot {
    let v = c.vehicle.unwrap();
    let mount = cvars.hardpoint(v.veh_type, weapon);
    Shot {
        owner: id,
        weapon,
        hardpoint: mount.0,
        weapon_offset: mount.1,
        turret_offset: cvars.vehicle_turret_offset_chassis(v.veh_type),
        pos: c.pos.unwrap(),
        vel: c.vel.unwrap(),
        hull_angle: c.angle.unwrap(),
        shot_angle: shot_angle(mount.0, c.angle.unwrap(), v.turret_angle),
    }
}

/// The shots that the vehicles in the first `n` slots fire, in the order
/// of the slots.
pub open spec fn shots_of(
    cvars: &Cvars,
    slots: Seq<Slot>,
    input: Input,
    weapon: Weapon,
    now: i64,
    n: int,
) -> Seq<Shot>
    decreases n,
{
    if n <= 0 {
        Seq::empty()
    } else {
        shots_of(cvars, slots, input, weapon, now, n - 1) + if fires(
            slots[n - 1],
            input,
            weapon,
            now,
        ) {
            seq![shot_of(cvars, id_of(slots, n - 1), slots[n - 1].entity.unwrap(), weapon)]
        } else {
            Seq::empty()
        }
    }
}

/// Lets the occupant of one slot fire if it can: what becomes of the
/// slot, and the shot if there was one.
pub fn pull_trigger(
    cvars: &Cvars,
    slot: Slot,
    id: EntityId,
    input: Input,
    weapon: Weapon,
    now: i64,
) -> (r: (Slot, Option<Shot>))
    ensures
        r.0 == if fires(slot, input, weapon, now) {
            slot_after_shot(cvars, slot, weapon, now)
        } else {
            slot
        },
        r.1 == if fires(slot, input, weapon, now) {
            Some(shot_of(cvars, id, slot.entity.unwrap(), weapon))
        } else {
            None
        },
{
    if !input.fire {
        return (slot, None);
    }
    if let Some(c) = slot.entity {
        if let (Some(vehicle), Some(pos), Some(vel), Some(angle)) = (c.vehicle, c.pos, c.vel, c.angle) {
            if vehicle.destroyed {
                return (slot, None);
            }
            let mut ammo = vehicle.get_ammo(weapon);
            let fired = ammo.shoot(
                now,
                cvars.g_weapon_refire(weapon),
                cvars.g_weapon_reload_time(weapon),
            );
            if !fired {
                return (slot, None);
            }
            let mut v = vehicle;
            v.set_ammo(weapon, ammo);
            let mut c2 = c;
            c2.vehicle = Some(v);
            let (hardpoint, weapon_offset) = cvars.g_hardpoint(vehicle.veh_type, weapon);
            let shot_angle = match hardpoint {
                Hardpoint::Chassis => angle,
                Hardpoint::Turret => plus(angle, vehicle.turret_angle),
            };
            let shot = Shot {
                owner: id,
                weapon,
                hardpoint,
                weapon_offset,
                turret_offset: cvars.g_vehicle_turret_offset_chassis(vehicle.veh_type),
                pos,
                vel,
                hull_angle: angle,
                shot_angle,
            };
            return (Slot { generation: slot.generation, entity: Some(c2) }, Some(shot));
        }
    }
    (slot, None)
}

/// Every vehicle that is no wreck fires the selected weapon if the fire
/// input is set and the weapon is ready. A shot uses up one round and
/// starts the refire delay; the last round of a magazine starts the
/// reload instead. Returns the shots, in the order of the slots.
pub fn shooting(cvars: &Cvars, store: &mut EntityStore, gs: &GameState) -> (shots: Vec<Shot>)
    ensures
        final(store)@.len() == old(store)@.len(),
        forall|i: int|
            0 <= i < old(store)@.len() ==> #[trigger] final(store)@[i] == if fires(
                old(store)@[i],
                gs.input,
                gs.cur_weapon,
                gs.game_time,
            ) {
                slot_after_shot(cvars, old(store)@[i], gs.cur_weapon, gs.game_time)
            } else {
                old(store)@[i]
            },
        shots@ == shots_of(
            cvars,
            old(store)@,
            gs.input,
            gs.cur_weapon,
            gs.game_time,
            old(store)@.len() as int,
        ),
{
    let mut shots: Vec<Shot> = Vec::new();
    let n = store.slots.len();
    let mut i: usize = 0;
    while i < n
        invariant
            i <= n,
            n == old(store)@.len(),
            store@.len() == n,
            forall|k: int|
                0 <= k < i ==> #[trigger] store@[k] == if fires(
                    old(store)@[k],
                    gs.input,
                    gs.cur_weapon,
                    gs.game_time,
                ) {
                    slot_after_shot(cvars, old(store)@[k], gs.cur_weapon, gs.game_time)
                } else {
                    old(store)@[k]
                },
            forall|k: int| i <= k < n ==> #[trigger] store@[k] == old(store)@[k],
            shots@ == shots_of(
                cvars,
                old(store)@,
                gs.input,
                gs.cur_weapon,
                gs.game_time,
                i as int,
            ),
        decreases n - i,
    {
        let slot = store.slots[i];
        let id = EntityId { slot: i, generation: slot.generation };
        let ghost before = shots@;
        let (after, shot) = pull_trigger(cvars, slot, id, gs.input, gs.cur_weapon, gs.game_time);
        store.slots[i] = after;
        match shot {
            Some(shot) => {
                shots.push(shot);
                assert(shots@ =~= before + seq![shot]);
            },
            None => {
                assert(shots@ =~= before + Seq::<Shot>::empty());
            },
        }
        i += 1;
    }
    shots
}

/// What the caller has worked out for one shot.
pub struct Aim {
    /// The rotation by the hull's angle.
    pub hull: Rotation,
    /// The rotation by the shot's angle.
    pub barrel: Rotation,
    /// The rotation by the angle at which a machine-gun bullet leaves:
    /// the shot's angle plus the bullet's random spread.
    pub muzzle: Rotation,
    /// The direction, as an angle, of the velocity with which a guided
    /// missile leaves.
    pub heading: i64,
    /// The first point at which the map blocks the rail beam, if any.
    pub rail_hit: Option<Vec2>,
    /// The random parts of the cluster bombs, one for each.
    pub cluster: Vec<ClusterSample>,
}

/// The angle by which a machine-gun bullet strays, for the sample
/// `normal` of a standard normal distribution.
pub fn machine_gun_spread(cvars: &Cvars, normal: i64) -> (r: i64)
    ensures
        r == saturate(scaled_product(cvars.g_machine_gun_angle_spread as int, normal as int)),
{
    times(cvars.g_machine_gun_angle_spread, normal)
}

/// Where a shot leaves the vehicle. A weapon on the chassis is turned by
/// the shot's angle, which is the hull's. A weapon on the turret is
/// carried to the turret's place on the turned hull first and then turned
/// by the shot's angle.
pub open spec fn origin_of(shot: Shot, hull: Rotation, barrel: Rotation) -> Vec2 {
    match shot.hardpoint {
        Hardpoint::Chassis => shot.pos.spec_plus(shot.weapon_offset.spec_rotated(barrel)),
        Hardpoint::Turret => shot.pos.spec_plus(shot.turret_offset.spec_rotated(hull)).spec_plus(
            shot.weapon_offset.spec_rotated(barrel),
        ),
    }
}

/// Where a shot leaves the vehicle.
pub fn shot_origin(shot: &Shot, hull: Rotation, barrel: Rotation) -> (r: Vec2)
    ensures
        r == origin_of(*shot, hull, barrel),
{
    match shot.hardpoint {
        Hardpoint::Chassis => shot.pos.plus(shot.weapon_offset.rotated(barrel)),
        Hardpoint::Turret => shot.pos.plus(shot.turret_offset.rotated(hull)).plus(
            shot.weapon_offset.rotated(barrel),
        ),
    }
}

/// The far end of a rail beam that starts at `origin`.
pub open spec fn rail_end(origin: Vec2, barrel: Rotation) -> Vec2 {
    origin.spec_plus(Vec2 { x: barrel.cos, y: barrel.sin }.spec_scaled(RAIL_RANGE))
}

/// The path of a rail beam: from where the shot leaves the vehicle,
/// straight on to the end of the beam's range. The map is asked about it
/// before `launch` runs.
pub fn rail_path(shot: &Shot, hull: Rotation, barrel: Rotation) -> (r: (Vec2, Vec2))
    ensures
        r.0 == origin_of(*shot, hull, barrel),
        r.1 == rail_end(r.0, barrel),
{
    let origin = shot_origin(shot, hull, barrel);
    (origin, origin.plus(Vec2 { x: barrel.cos, y: barrel.sin }.scaled(RAIL_RANGE)))
}

/// The velocity of a projectile that leaves at (`forward`, `sideways`)
/// in the weapon's own frame and takes along the share `factor` of the
/// vehicle's velocity.
pub open spec fn muzzle_velocity(
    forward: i64,
    sideways: i64,
    turn: Rotation,
    vel: Vec2,
    factor: i64,
) -> Vec2 {
    Vec2 { x: forward, y: sideways }.spec_rotated(turn).spec_plus(vel.spec_scaled(factor))
}

/// The velocity of a projectile as it leaves.
pub fn leaving_velocity(forward: i64, sideways: i64, turn: Rotation, vel: Vec2, factor: i64) -> (r:
    Vec2)
    ensures
        r == muzzle_velocity(forward, sideways, turn, vel, factor),
{
    Vec2 { x: forward, y: sideways }.rotated(turn).plus(vel.scaled(factor))
}

/// The speed at which the projectile of a weapon leaves, and the share of
/// the vehicle's velocity that it takes along. A rail beam is no
/// projectile; cluster bombs have their own rule.
pub open spec fn launch_stats(cvars: &Cvars, weapon: Weapon) -> (i64, i64) {
    match weapon {
        Weapon::Mg => (cvars.g_machine_gun_speed, cvars.g_machine_gun_vehicle_velocity_factor),
        Weapon::Rail => (cvars.g_railgun_speed, cvars.g_railgun_vehicle_velocity_factor),
        Weapon::Cb => (cvars.g_cluster_bomb_speed, cvars.g_cluster_bomb_vehicle_velocity_factor),
        Weapon::Rockets => (cvars.g_rockets_speed, cvars.g_rockets_vehicle_velocity_factor),
        Weapon::Hm => (
            cvars.g_homing_missile_speed_initial,
            cvars.g_homing_missile_vehicle_velocity_factor,
        ),
        Weapon::Gm => (
            cvars.g_guided_missile_speed_min,
            cvars.g_guided_missile_vehicle_velocity_factor,
        ),
        Weapon::Bfg => (cvars.g_bfg_speed, cvars.g_bfg_vehicle_velocity_factor),
    }
}

/// The speed and velocity share of a weapon's projectile.
pub fn weapon_launch_stats(cvars: &Cvars, weapon: Weapon) -> (r: (i64, i64))
    ensures
        r == launch_stats(cvars, weapon),
{
    match weapon {
        Weapon::Mg => (cvars.g_machine_gun_speed, cvars.g_machine_gun_vehicle_velocity_factor),
        Weapon::Rail => (cvars.g_railgun_speed, cvars.g_railgun_vehicle_velocity_factor),
        Weapon::Cb => (cvars.g_cluster_bomb_speed, cvars.g_cluster_bomb_vehicle_velocity_factor),
        Weapon::Rockets => (cvars.g_rockets_speed, cvars.g_rockets_vehicle_velocity_factor),
        Weapon::Hm => (
            cvars.g_homing_missile_speed_initial,
            cvars.g_homing_missile_vehicle_velocity_factor,
        ),
        Weapon::Gm => (
            cvars.g_guided_missile_speed_min,
            cvars.g_guided_missile_vehicle_velocity_factor,
        ),
        Weapon::Bfg => (cvars.g_bfg_speed, cvars.g_bfg_vehicle_velocity_factor),
    }
}

/// The projectile that a shot from a weapon with a single projectile
/// sends out. A machine-gun bullet strays by its spread; a guided missile
/// also has a heading, a turn rate and an input of its own.
pub open spec fn single_projectile(cvars: &Cvars, shot: Shot, aim: &Aim) -> Components {
    let stats = launch_stats(cvars, shot.weapon);
    let turn = if shot.weapon == Weapon::Mg {
        aim.muzzle
    } else {
        aim.barrel
    };
    let plain = Components::spec_projectile(
        shot.weapon,
        origin_of(shot, aim.hull, aim.barrel),
        muzzle_velocity(stats.0, 0, turn, shot.vel, stats.1),
        shot.owner,
    );
    if shot.weapon == Weapon::Gm {
        Components {
            guided_missile: true,
            angle: Some(aim.heading),
            turn_rate: Some(0i64),
            input: Some(Input::neutral()),
            ..plain
        }
    } else {
        plain
    }
}

/// The projectile that a shot from a weapon with a single projectile
/// sends out.
pub fn make_projectile(cvars: &Cvars, shot: &Shot, aim: &Aim) -> (c: Components)
    ensures
        c == single_projectile(cvars, *shot, aim),
{
    let (speed, factor) = weapon_launch_stats(cvars, shot.weapon);
    let origin = shot_origin(shot, aim.hull, aim.barrel);
    match shot.weapon {
        Weapon::Mg => Components::projectile(
            shot.weapon,
            origin,
            leaving_velocity(speed, 0, aim.muzzle, shot.vel, factor),
            shot.owner,
        ),
        Weapon::Gm => {
            let mut c = Components::projectile(
                shot.weapon,
                origin,
                leaving_velocity(speed, 0, aim.barrel, shot.vel, factor),
                shot.owner,
            );
            c.guided_missile = true;
            c.angle = Some(aim.heading);
            c.turn_rate = Some(0);
            c.input = Some(Input::new());
            c
        },
        _ => Components::projectile(
            shot.weapon,
            origin,
            leaving_velocity(speed, 0, aim.barrel, shot.vel, factor),
            shot.owner,
        ),
    }
}

/// One bomb of a cluster shot: its speed strays forward and sideways by
/// the sample's factors of the configured spreads, and its fuze runs out
/// at the configured time after the shot, give or take the sample's
/// factor of the fuze spread.
pub open spec fn cluster_bomb(cvars: &Cvars, shot: Shot, aim: &Aim, sample: ClusterSample, now: i64)
    -> Components {
    let forward = saturate(
        cvars.g_cluster_bomb_speed + saturate(
            scaled_product(cvars.g_cluster_bomb_speed_spread_forward as int, sample.forward as int),
        ),
    );
    let sideways = saturate(
        scaled_product(cvars.g_cluster_bomb_speed_spread_sideways as int, sample.sideways as int),
    );
    let time = saturate(
        saturate(now + cvars.g_cluster_bomb_time) + saturate(
            scaled_product(sample.fuze as int, cvars.g_cluster_bomb_time_spread as int),
        ),
    );
    Components {
        time: Some(time),
        ..Components::spec_projectile(
            Weapon::Cb,
            origin_of(shot, aim.hull, aim.barrel),
            muzzle_velocity(
                forward,
                sideways,
                aim.barrel,
                shot.vel,
                cvars.g_cluster_bomb_vehicle_velocity_factor,
            ),
            shot.owner,
        )
    }
}

/// One bomb of a cluster shot.
pub fn make_cluster_bomb(cvars: &Cvars, shot: &Shot, aim: &Aim, sample: ClusterSample, now: i64)
    -> (c: Components)
    ensures
        c == cluster_bomb(cvars, *shot, aim, sample, now),
{
    let forward = plus(
        cvars.g_cluster_bomb_speed,
        times(cvars.g_cluster_bomb_speed_spread_forward, sample.forward),
    );
    let sideways = times(cvars.g_cluster_bomb_speed_spread_sideways, sample.sideways);
    let time = plus(
        plus(now, cvars.g_cluster_bomb_time),
        times(sample.fuze, cvars.g_cluster_bomb_time_spread),
    );
    let mut c = Components::projectile(
        Weapon::Cb,
        shot_origin(shot, aim.hull, aim.barrel),
        leaving_velocity(
            forward,
            sideways,
            aim.barrel,
            shot.vel,
            cvars.g_cluster_bomb_vehicle_velocity_factor,
        ),
        shot.owner,
    );
    c.time = Some(time);
    c
}

/// How many bombs a cluster shot sends out with `samples` samples at
/// hand: the configured count, but no more than there are samples.
pub open spec fn bomb_count(cvars: &Cvars, samples: nat) -> nat {
    if cluster_size(cvars) < samples {
        cluster_size(cvars)
    } else {
        samples
    }
}

/// The slots after the first `n` bombs of a cluster shot have been
/// created, one after the other.
pub open spec fn with_bombs(
    cvars: &Cvars,
    slots: Seq<Slot>,
    shot: Shot,
    aim: &Aim,
    now: i64,
    n: nat,
) -> Seq<Slot>
    decreases n,
{
    if n == 0 {
        slots
    } else {
        with_created(
            with_bombs(cvars, slots, shot, aim, now, (n - 1) as nat),
            cluster_bomb(cvars, shot, aim, aim.cluster@[n - 1], now),
        )
    }
}

/// Whether a shot sends out its single projectile: a rail beam and a
/// cluster shot have none, and a guided missile leaves only the vehicle
/// of the local player.
pub open spec fn sends_projectile(shot: Shot, player: Option<EntityId>) -> bool {
    match shot.weapon {
        Weapon::Rail => false,
        Weapon::Cb => false,
        Weapon::Gm => player == Some(shot.owner),
        _ => true,
    }
}

/// The slots after what a shot sends out has been created.
pub open spec fn launched(
    cvars: &Cvars,
    slots: Seq<Slot>,
    player: Option<EntityId>,
    shot: Shot,
    aim: &Aim,
    now: i64,
) -> Seq<Slot> {
    if shot.weapon == Weapon::Cb {
        with_bombs(cvars, slots, shot, aim, now, bomb_count(cvars, aim.cluster@.len()))
    } else if sends_projectile(shot, player) {
        with_created(slots, single_projectile(cvars, shot, aim))
    } else {
        slots
    }
}

/// Creates what a shot sends out.
///
/// A machine gun, rockets, a homing missile and a BFG send one
/// projectile. A railgun sends none: if the map blocks its beam, the beam
/// from the shot's origin to that point is recorded. A cluster shot sends
/// one bomb per sample, up to the configured count. A guided missile
/// leaves only the local player's vehicle, and is piloted from then on.
pub fn launch(cvars: &Cvars, store: &mut EntityStore, gs: &mut GameState, shot: &Shot, aim: &Aim)
    ensures
        final(store)@ == launched(
            cvars,
            old(store)@,
            old(gs).player_entity,
            *shot,
            aim,
            old(gs).game_time,
        ),
        final(gs).rail_beams@ == if shot.weapon == Weapon::Rail && aim.rail_hit.is_some() {
            old(gs).rail_beams@.push(
                RailBeam {
                    begin: origin_of(*shot, aim.hull, aim.barrel),
                    end: aim.rail_hit.unwrap(),
                    start_time: old(gs).game_time,
                },
            )
        } else {
            old(gs).rail_beams@
        },
        final(gs).guided_missile == if shot.weapon == Weapon::Gm && sends_projectile(
            *shot,
            old(gs).player_entity,
        ) {
            Some(next_id(old(store)@))
        } else {
            old(gs).guided_missile
        },
        final(gs).same_frame(old(gs)),
        final(gs).rng == old(gs).rng,
        final(gs).explosions == old(gs).explosions,
        final(gs).bfg_beams == old(gs).bfg_beams,
{
    let now = gs.game_time;
    match shot.weapon {
        Weapon::Rail => {
            match aim.rail_hit {
                Some(hit) => {
                    let origin = shot_origin(shot, aim.hull, aim.barrel);
                    gs.rail_beams.push(RailBeam::new(origin, hit, now));
                },
                None => {},
            }
        },
        Weapon::Cb => {
            let mut k: usize = 0;
            while k < aim.cluster.len() && (k as u64) < cluster_limit(cvars)
                invariant
                    k <= aim.cluster@.len(),
                    k <= cluster_size(cvars),
                    store@ == with_bombs(cvars, old(store)@, *shot, aim, now, k as nat),
                    *gs == *old(gs),
                decreases aim.cluster@.len() - k,
            {
                let bomb = make_cluster_bomb(cvars, shot, aim, aim.cluster[k], now);
                store.create(bomb);
                k += 1;
            }
        },
        Weapon::Gm => {
            let is_player = match gs.player_entity {
                Some(player) => player == shot.owner,
                None => false,
            };
            if is_player {
                let id = store.create(make_projectile(cvars, shot, aim));
                gs.guided_missile = Some(id);
            }
        },
        _ => {
            store.create(make_projectile(cvars, shot, aim));
        },
    }
}

/// The configured number of bombs in a cluster shot.
pub fn cluster_limit(cvars: &Cvars) -> (r: u64)
    ensures
        r == cluster_size(cvars),
{
    if cvars.g_cluster_bomb_count < 0 {
        0
    } else {
        cvars.g_cluster_bomb_count as u64
    }
}

} // verus!

//! The systems: what happens to the entities in one frame.
//!
//! A frame runs them in this order: `self_destruct`, `movement`,
//! `turrets`, `shooting`, `projectiles`, `projectiles_timeout`. Each one
//! sees what the ones before it have done.

use vstd::prelude::*;
use crate::components::{EntityId, Hitbox, Weapon};
use crate::cvars::Cvars;
use crate::entities::Vehicle;
use crate::entity_store::{Components, EntityStore, Slot};
use crate::fixed::{minus, plus, saturate, scaled_product, times, Vec2, SCALE};
use crate::game_state::{Explosion, GameState, Input};

verus! {

/// The radius within which a projectile hits a vehicle.
pub const HIT_RADIUS: i64 = 24_000_000;

/// The id of the occupant of slot `i`.
pub open spec fn id_of(slots: Seq<Slot>, i: int) -> EntityId {
    EntityId { slot: i as usize, generation: slots[i].generation }
}

// ---------------------------------------------------------------------
// Self-destruct

/// Whether the occupant of `slot` blows itself up: a vehicle with a
/// position that is not a wreck yet, while the self-destruct input is set.
pub open spec fn self_destructs(slot: Slot, input: Input) -> bool {
    &&& input.self_destruct
    &&& slot.entity.is_some()
    &&& slot.entity.unwrap().vehicle.is_some()
    &&& slot.entity.unwrap().pos.is_some()
    &&& !slot.entity.unwrap().vehicle.unwrap().destroyed
}

/// `slot` with its vehicle turned into a wreck.
pub open spec fn wrecked(slot: Slot) -> Slot {
    let c = slot.entity.unwrap();
    Slot {
        generation: slot.generation,
        entity: Some(
            Components { vehicle: Some(Vehicle { destroyed: true, ..c.vehicle.unwrap() }), ..c },
        ),
    }
}

/// The two blasts of a vehicle that blows itself up at `pos`.
pub open spec fn self_destruct_blasts(cvars: &Cvars, pos: Vec2, now: i64) -> Seq<Explosion> {
    seq![
        Explosion { pos, scale: cvars.g_self_destruct_explosion1_scale, start_time: now, bfg: false },
        Explosion { pos, scale: cvars.g_self_destruct_explosion2_scale, start_time: now, bfg: false },
    ]
}

/// The blasts of all vehicles in the first `n` slots that blow
/// themselves up, in the order of the slots.
pub open spec fn self_destruct_events(
    cvars: &Cvars,
    slots: Seq<Slot>,
    input: Input,
    now: i64,
    n: int,
) -> Seq<Explosion>
    decreases n,
{
    if n <= 0 {
        Seq::empty()
    } else {
        self_destruct_events(cvars, slots, input, now, n - 1) + if self_destructs(
            slots[n - 1],
            input,
        ) {
            self_destruct_blasts(cvars, slots[n - 1].entity.unwrap().pos.unwrap(), now)
        } else {
            Seq::empty()
        }
    }
}

/// Every vehicle that is not a wreck blows itself up if the self-destruct
/// input is set: it becomes a wreck, and two blasts of different size
/// appear where it stands, both at the time of this frame.
pub fn self_destruct(cvars: &Cvars, store: &mut EntityStore, gs: &mut GameState)
    ensures
        final(store)@.len() == old(store)@.len(),
        forall|i: int|
            0 <= i < old(store)@.len() ==> #[trigger] final(store)@[i] == if self_destructs(
                old(store)@[i],
                old(gs).input,
            ) {
                wrecked(old(store)@[i])
            } else {
                old(store)@[i]
            },
        final(gs).explosions@ == old(gs).explosions@ + self_destruct_events(
            cvars,
            old(store)@,
            old(gs).input,
            old(gs).game_time,
            old(store)@.len() as int,
        ),
        final(gs).same_frame(old(gs)),
        final(gs).rng == old(gs).rng,
        final(gs).rail_beams == old(gs).rail_beams,
        final(gs).bfg_beams == old(gs).bfg_beams,
        final(gs).guided_missile == old(gs).guided_missile,
{
    let n = store.slots.len();
    let mut i: usize = 0;
    while i < n
        invariant
            i <= n,
            n == old(store)@.len(),
            store@.len() == n,
            forall|k: int|
                0 <= k < i ==> #[trigger] store@[k] == if self_destructs(
                    old(store)@[k],
                    old(gs).input,
                ) {
                    wrecked(old(store)@[k])
                } else {
                    old(store)@[k]
                },
            forall|k: int| i <= k < n ==> #[trigger] store@[k] == old(store)@[k],
            gs.explosions@ == old(gs).explosions@ + self_destruct_events(
                cvars,
                old(store)@,
                old(gs).input,
                old(gs).game_time,
                i as int,
            ),
            gs.same_frame(old(gs)),
            gs.rng == old(gs).rng,
            gs.rail_beams == old(gs).rail_beams,
            gs.bfg_beams == old(gs).bfg_beams,
            gs.guided_missile == old(gs).guided_missile,
        decreases n - i,
    {
        let slot = store.slots[i];
        let ghost before = gs.explosions@;
        let ghost mut done = false;
        if gs.input.self_destruct {
            if let Some(c) = slot.entity {
                if let (Some(vehicle), Some(pos)) = (c.vehicle, c.pos) {
                    if !vehicle.destroyed {
                        let mut v = vehicle;
                        v.destroyed = true;
                        let mut c2 = c;
                        c2.vehicle = Some(v);
                        store.slots[i] = Slot { generation: slot.generation, entity: Some(c2) };
                        gs.explosions.push(
                            Explosion::new(
                                pos,
                                cvars.g_self_destruct_explosion1_scale,
                                gs.game_time,
                                false,
                            ),
                        );
                        gs.explosions.push(
                            Explosion::new(
                                pos,
                                cvars.g_self_destruct_explosion2_scale,
                                gs.game_time,
                                false,
                            ),
                        );
                        proof {
                            done = true;
                            assert(gs.explosions@ =~= before + self_destruct_blasts(
                                cvars,
                                pos,
                                old(gs).game_time,
                            ));
                        }
                    }
                }
            }
        }
        proof {
            assert(done == self_destructs(old(store)@[i as int], old(gs).input));
            if !done {
                assert(gs.explosions@ =~= before + Seq::<Explosion>::empty());
            }
            assert(gs.explosions@ =~= old(gs).explosions@ + self_destruct_events(
                cvars,
                old(store)@,
                old(gs).input,
                old(gs).game_time,
                i as int + 1,
            ));
        }
        i += 1;
    }
}

// ---------------------------------------------------------------------
// Turrets and reloading

/// How far a turret turns in `dt` seconds.
pub open spec fn turret_step(cvars: &Cvars, dt: i64) -> i64 {
    saturate(scaled_product(cvars.g_turret_turn_speed as int, dt as int))
}

/// The turret angle after one frame of turning: first to the left if that
/// input is set, then to the right if that one is. The angle is not
/// brought back into any range.
pub open spec fn turret_turned(angle: i64, input: Input, step: i64) -> i64 {
    let a = if input.turret_left {
        saturate(angle - step)
    } else {
        angle
    };
    if input.turret_right {
        saturate(a + step)
    } else {
        a
    }
}

/// The vehicle after its turret has turned and the reload of the selected
/// weapon has been checked.
pub open spec fn vehicle_after_turret(
    cvars: &Cvars,
    v: Vehicle,
    input: Input,
    weapon: Weapon,
    now: i64,
    dt: i64,
) -> Vehicle {
    Vehicle {
        turret_angle: turret_turned(v.turret_angle, input, turret_step(cvars, dt)),
        ..v
    }.with_ammo(weapon, v.ammo(weapon).after_reload(now, cvars.weapon_reload_ammo(weapon)))
}

/// What the turret system makes of `slot`: it changes vehicles only.
pub open spec fn slot_after_turret(
    cvars: &Cvars,
    slot: Slot,
    input: Input,
    weapon: Weapon,
    now: i64,
    dt: i64,
) -> Slot {
    if slot.entity.is_some() && slot.entity.unwrap().vehicle.is_some() {
        let c = slot.entity.unwrap();
        Slot {
            generation: slot.generation,
            entity: Some(
                Components {
                    vehicle: Some(
                        vehicle_after_turret(cvars, c.vehicle.unwrap(), input, weapon, now, dt),
                    ),
                    ..c
                },
            ),
        }
    } else {
        slot
    }
}

/// Turns the turret of every vehicle as the input says, and ends the
/// reload of the selected weapon where its time has come.
pub fn turrets(cvars: &Cvars, store: &mut EntityStore, gs: &GameState)
    ensures
        final(store)@.len() == old(store)@.len(),
        forall|i: int|
            0 <= i < old(store)@.len() ==> #[trigger] final(store)@[i] == slot_after_turret(
                cvars,
                old(store)@[i],
                gs.input,
                gs.cur_weapon,
                gs.game_time,
                gs.dt,
            ),
{
    let n = store.slots.len();
    let step = times(cvars.g_turret_turn_speed, gs.dt);
    let mut i: usize = 0;
    while i < n
        invariant
            i <= n,
            n == old(store)@.len(),
            store@.len() == n,
            step == turret_step(cvars, gs.dt),
            forall|k: int|
                0 <= k < i ==> #[trigger] store@[k] == slot_after_turret(
                    cvars,
                    old(store)@[k],
                    gs.input,
                    gs.cur_weapon,
                    gs.game_time,
                    gs.dt,
                ),
            forall|k: int| i <= k < n ==> #[trigger] store@[k] == old(store)@[k],
        decreases n - i,
    {
        let slot = store.slots[i];
        if let Some(c) = slot.entity {
            if let Some(vehicle) = c.vehicle {
                let mut v = vehicle;
                if gs.input.turret_left {
                    v.turret_angle = minus(v.turret_angle, step);
                }
                if gs.input.turret_right {
                    v.turret_angle = plus(v.turret_angle, step);
                }
                let mut ammo = vehicle.get_ammo(gs.cur_weapon);
                ammo.reload(gs.game_time, cvars.g_weapon_reload_ammo(gs.cur_weapon));
                v.set_ammo(gs.cur_weapon, ammo);
                let mut c2 = c;
                c2.vehicle = Some(v);
                store.slots[i] = Slot { generation: slot.generation, entity: Some(c2) };
            }
        }
        i += 1;
    }
}

// ---------------------------------------------------------------------
// Projectiles that go off by themselves

/// Whether the occupant of `slot` goes off at time `now`: it was fired by
/// a weapon, has a position, and its fuze has run out.
pub open spec fn expired(slot: Slot, now: i64) -> bool {
    &&& slot.entity.is_some()
    &&& slot.entity.unwrap().weapon.is_some()
    &&& slot.entity.unwrap().pos.is_some()
    &&& slot.entity.unwrap().time.is_some()
    &&& now > slot.entity.unwrap().time.unwrap()
}

/// The blast of the weapon `weapon` at `pos`.
pub open spec fn weapon_blast(cvars: &Cvars, weapon: Weapon, pos: Vec2, start_time: i64)
    -> Explosion {
    Explosion {
        pos,
        scale: cvars.weapon_explosion_scale(weapon),
        start_time,
        bfg: weapon == Weapon::Bfg,
    }
}

/// The blasts of the projectiles in the first `n` slots that go off, in
/// the order of the slots. Each starts when its fuze ran out, not at the
/// time of the frame.
pub open spec fn timeout_events(cvars: &Cvars, slots: Seq<Slot>, now: i64, n: int) -> Seq<
    Explosion,
>
    decreases n,
{
    if n <= 0 {
        Seq::empty()
    } else {
        let c = slots[n - 1].entity.unwrap();
        timeout_events(cvars, slots, now, n - 1) + if expired(slots[n - 1], now) {
            seq![weapon_blast(cvars, c.weapon.unwrap(), c.pos.unwrap(), c.time.unwrap())]
        } else {
            Seq::empty()
        }
    }
}

/// Whether a guided missile is among the projectiles in the first `n`
/// slots that go off.
pub open spec fn guided_missile_expires(slots: Seq<Slot>, now: i64, n: int) -> bool
    decreases n,
{
    if n <= 0 {
        false
    } else {
        guided_missile_expires(slots, now, n - 1) || (expired(slots[n - 1], now)
            && slots[n - 1].entity.unwrap().weapon == Some(Weapon::Gm))
    }
}

/// The blast of a weapon, sized by the configuration.
pub fn blast_of(cvars: &Cvars, weapon: Weapon, pos: Vec2, start_time: i64) -> (e: Explosion)
    ensures
        e == weapon_blast(cvars, weapon, pos, start_time),
{
    let bfg = match weapon {
        Weapon::Bfg => true,
        _ => false,
    };
    Explosion::new(pos, cvars.g_weapon_explosion_scale(weapon), start_time, bfg)
}

/// Every projectile whose fuze has run out goes off: its blast appears
/// where it is, and it leaves the store. If a guided missile is among
/// them, no missile is piloted any more.
pub fn projectiles_timeout(cvars: &Cvars, store: &mut EntityStore, gs: &mut GameState)
    ensures
        final(store)@.len() == old(store)@.len(),
        forall|i: int|
            0 <= i < old(store)@.len() ==> #[trigger] final(store)@[i] == if expired(
                old(store)@[i],
                old(gs).game_time,
            ) {
                old(store)@[i].vacated()
            } else {
                old(store)@[i]
            },
        final(gs).explosions@ == old(gs).explosions@ + timeout_events(
            cvars,
            old(store)@,
            old(gs).game_time,
            old(store)@.len() as int,
        ),
        final(gs).guided_missile == if guided_missile_expires(
            old(store)@,
            old(gs).game_time,
            old(store)@.len() as int,
        ) {
            None
        } else {
            old(gs).guided_missile
        },
        final(gs).same_frame(old(gs)),
        final(gs).rng == old(gs).rng,
        final(gs).rail_beams == old(gs).rail_beams,
        final(gs).bfg_beams == old(gs).bfg_beams,
{
    let n = store.slots.len();
    let now = gs.game_time;
    let mut i: usize = 0;
    while i < n
        invariant
            i <= n,
            n == old(store)@.len(),
            store@.len() == n,
            now == old(gs).game_time,
            forall|k: int|
                0 <= k < i ==> #[trigger] store@[k] == if expired(old(store)@[k], now) {
                    old(store)@[k].vacated()
                } else {
                    old(store)@[k]
                },
            forall|k: int| i <= k < n ==> #[trigger] store@[k] == old(store)@[k],
            gs.explosions@ == old(gs).explosions@ + timeout_events(
                cvars,
                old(store)@,
                now,
                i as int,
            ),
            gs.guided_missile == if guided_missile_expires(old(store)@, now, i as int) {
                None
            } else {
                old(gs).guided_missile
            },
            gs.same_frame(old(gs)),
            gs.rng == old(gs).rng,
            gs.rail_beams == old(gs).rail_beams,
            gs.bfg_beams == old(gs).bfg_beams,
        decreases n - i,
    {
        let slot = store.slots[i];
        let ghost before = gs.explosions@;
        let ghost mut went_off = false;
        if let Some(c) = slot.entity {
            if let (Some(weapon), Some(pos), Some(time)) = (c.weapon, c.pos, c.time) {
                if now > time {
                    gs.explosions.push(blast_of(cvars, weapon, pos, time));
                    match weapon {
                        Weapon::Gm => {
                            gs.guided_missile = None;
                        },
                        _ => {},
                    }
                    store.slots[i] = vacate(slot);
                    proof {
                        went_off = true;
                        assert(gs.explosions@ =~= before + seq![
                            weapon_blast(cvars, weapon, pos, time),
                        ]);
                    }
                }
            }
        }
        proof {
            assert(went_off == expired(old(store)@[i as int], now));
            if !went_off {
                assert(gs.explosions@ =~= before + Seq::<Explosion>::empty());
            }
            assert(gs.explosions@ =~= old(gs).explosions@ + timeout_events(
                cvars,
                old(store)@,
                now,
                i as int + 1,
            ));
        }
        i += 1;
    }
}

/// The slot after its occupant has left.
pub fn vacate(slot: Slot) -> (r: Slot)
    ensures
        r == slot.vacated(),
{
    Slot {
        generation: if slot.generation < u32::MAX {
            slot.generation + 1
        } else {
            slot.generation
        },
        entity: None,
    }
}

// ---------------------------------------------------------------------
// Projectiles in flight

/// What a projectile needs to know of a vehicle: its id, whether it is a
/// wreck, its position, its angle and its hitbox.
pub type VehicleEntry = (EntityId, bool, Vec2, i64, Hitbox);

/// Whether the occupant of `slot` is a vehicle with a position, an angle
/// and a hitbox.
pub open spec fn is_vehicle(slot: Slot) -> bool {
    &&& slot.entity.is_some()
    &&& slot.entity.unwrap().vehicle.is_some()
    &&& slot.entity.unwrap().pos.is_some()
    &&& slot.entity.unwrap().angle.is_some()
    &&& slot.entity.unwrap().hitbox.is_some()
}

/// The entry of the vehicle in slot `i`.
pub open spec fn vehicle_entry(slots: Seq<Slot>, i: int) -> VehicleEntry {
    let c = slots[i].entity.unwrap();
    (
        id_of(slots, i),
        c.vehicle.unwrap().destroyed,
        c.pos.unwrap(),
        c.angle.unwrap(),
        c.hitbox.unwrap(),
    )
}

/// The entries of the vehicles in the first `n` slots, in the order of
/// the slots.
pub open spec fn vehicles_of(slots: Seq<Slot>, n: int) -> Seq<VehicleEntry>
    decreases n,
{
    if n <= 0 {
        Seq::empty()
    } else {
        vehicles_of(slots, n - 1) + if is_vehicle(slots[n - 1]) {
            seq![vehicle_entry(slots, n - 1)]
        } else {
            Seq::empty()
        }
    }
}

/// The entries of all vehicles, in the order of their slots.
pub fn all_vehicles(store: &EntityStore) -> (r: Vec<VehicleEntry>)
    ensures
        r@ == vehicles_of(store@, store@.len() as int),
{
    let mut r: Vec<VehicleEntry> = Vec::new();
    let n = store.slots.len();
    let mut i: usize = 0;
    while i < n
        invariant
            i <= n,
            n == store@.len(),
            r@ == vehicles_of(store@, i as int),
        decreases n - i,
    {
        let slot = store.slots[i];
        let ghost before = r@;
        if let Some(c) = slot.entity {
            if let (Some(vehicle), Some(pos), Some(angle), Some(hitbox)) = (
                c.vehicle,
                c.pos,
                c.angle,
                c.hitbox,
            ) {
                r.push(
                    (
                        EntityId { slot: i, generation: slot.generation },
                        vehicle.destroyed,
                        pos,
                        angle,
                        hitbox,
                    ),
                );
                proof {
                    assert(r@ =~= before + seq![vehicle_entry(store@, i as int)]);
                }
            }
        }
        proof {
            if !is_vehicle(store@[i as int]) {
                assert(r@ =~= before + Seq::<VehicleEntry>::empty());
            }
        }
        i += 1;
    }
    r
}

/// Whether the occupant of `slot` is a projectile: something fired by a
/// weapon, with a position, a velocity and an owner.
pub open spec fn is_projectile(slot: Slot) -> bool {
    &&& slot.entity.is_some()
    &&& slot.entity.unwrap().weapon.is_some()
    &&& slot.entity.unwrap().pos.is_some()
    &&& slot.entity.unwrap().vel.is_some()
    &&& slot.entity.unwrap().owner.is_some()
}

/// Where something at `pos` with velocity `vel` is after `dt` seconds.
pub open spec fn moved(pos: Vec2, vel: Vec2, dt: i64) -> Vec2 {
    pos.spec_plus(vel.spec_scaled(dt))
}

/// Where the projectile in `slot` wants to be after `dt` seconds.
pub open spec fn candidate(slot: Slot, dt: i64) -> Vec2 {
    moved(slot.entity.unwrap().pos.unwrap(), slot.entity.unwrap().vel.unwrap(), dt)
}

/// Whether a projectile of `owner` at `at` hits the vehicle `v`: never
/// its owner, never a wreck, and only within the hit radius.
pub open spec fn can_hit(v: VehicleEntry, owner: EntityId, at: Vec2) -> bool {
    !v.1 && v.0 != owner && at.spec_within(v.2, HIT_RADIUS)
}

/// The index of the first vehicle at or after `from` that a projectile of
/// `owner` at `at` hits, or the number of vehicles if it hits none.
pub open spec fn first_target(vehicles: Seq<VehicleEntry>, owner: EntityId, at: Vec2, from: int)
    -> int
    decreases vehicles.len() - from,
{
    if from < 0 || from >= vehicles.len() {
        vehicles.len() as int
    } else if can_hit(vehicles[from], owner, at) {
        from
    } else {
        first_target(vehicles, owner, at, from + 1)
    }
}

/// The answer of the map for the path of the projectile in slot `i`: the
/// first point at which the path is blocked, if it is. A slot without an
/// answer has a free path.
pub open spec fn collision_at(collisions: Seq<Option<Vec2>>, i: int) -> Option<Vec2> {
    if 0 <= i < collisions.len() {
        collisions[i]
    } else {
        None
    }
}

/// Whether the occupant of `slot` is a projectile that checks its path:
/// all but cluster bombs, which only go off by their fuze.
pub open spec fn checks_path(slot: Slot) -> bool {
    is_projectile(slot) && slot.entity.unwrap().weapon != Some(Weapon::Cb)
}

/// Whether the projectile in `slot` hits the map.
pub open spec fn hits_wall(slot: Slot, collision: Option<Vec2>) -> bool {
    checks_path(slot) && collision.is_some()
}

/// The index of the vehicle that the projectile in `slot` hits, or the
/// number of vehicles if it hits none. A projectile that hits the map
/// hits no vehicle.
pub open spec fn target_of(
    vehicles: Seq<VehicleEntry>,
    slot: Slot,
    dt: i64,
    collision: Option<Vec2>,
) -> int {
    if checks_path(slot) && collision.is_none() {
        first_target(vehicles, slot.entity.unwrap().owner.unwrap(), candidate(slot, dt), 0)
    } else {
        vehicles.len() as int
    }
}

/// Whether the projectile in `slot` is used up in this frame.
pub open spec fn bursts(vehicles: Seq<VehicleEntry>, slot: Slot, dt: i64, collision: Option<Vec2>)
    -> bool {
    hits_wall(slot, collision) || target_of(vehicles, slot, dt, collision) < vehicles.len()
}

/// `slot` after the flight of its occupant: a projectile that bursts
/// leaves, any other one moves on; nothing else changes.
pub open spec fn slot_after_flight(
    vehicles: Seq<VehicleEntry>,
    slot: Slot,
    dt: i64,
    collision: Option<Vec2>,
) -> Slot {
    if !is_projectile(slot) {
        slot
    } else if bursts(vehicles, slot, dt, collision) {
        slot.vacated()
    } else {
        Slot {
            generation: slot.generation,
            entity: Some(Components { pos: Some(candidate(slot, dt)), ..slot.entity.unwrap() }),
        }
    }
}

/// The blasts that the flight of the occupant of `slot` causes: at the
/// point where it hits the map; or first the blast of the vehicle that it
/// hits and then its own, so that its own is drawn on top.
pub open spec fn flight_blasts(
    cvars: &Cvars,
    vehicles: Seq<VehicleEntry>,
    slot: Slot,
    now: i64,
    dt: i64,
    collision: Option<Vec2>,
) -> Seq<Explosion> {
    let k = target_of(vehicles, slot, dt, collision);
    if hits_wall(slot, collision) {
        seq![weapon_blast(cvars, slot.entity.unwrap().weapon.unwrap(), collision.unwrap(), now)]
    } else if k < vehicles.len() {
        seq![
            Explosion { pos: vehicles[k].2, scale: SCALE, start_time: now, bfg: false },
            weapon_blast(cvars, slot.entity.unwrap().weapon.unwrap(), candidate(slot, dt), now),
        ]
    } else {
        Seq::empty()
    }
}

/// The blasts that the flights from the first `n` slots cause, in the
/// order of the slots.
pub open spec fn flight_events(
    cvars: &Cvars,
    vehicles: Seq<VehicleEntry>,
    slots: Seq<Slot>,
    now: i64,
    dt: i64,
    collisions: Seq<Option<Vec2>>,
    n: int,
) -> Seq<Explosion>
    decreases n,
{
    if n <= 0 {
        Seq::empty()
    } else {
        flight_events(cvars, vehicles, slots, now, dt, collisions, n - 1) + flight_blasts(
            cvars,
            vehicles,
            slots[n - 1],
            now,
            dt,
            collision_at(collisions, n - 1),
        )
    }
}

/// Whether a guided missile is among the projectiles in the first `n`
/// slots that burst.
pub open spec fn guided_missile_bursts(
    vehicles: Seq<VehicleEntry>,
    slots: Seq<Slot>,
    dt: i64,
    collisions: Seq<Option<Vec2>>,
    n: int,
) -> bool
    decreases n,
{
    if n <= 0 {
        false
    } else {
        guided_missile_bursts(vehicles, slots, dt, collisions, n - 1) || (bursts(
            vehicles,
            slots[n - 1],
            dt,
            collision_at(collisions, n - 1),
        ) && slots[n - 1].entity.unwrap().weapon == Some(Weapon::Gm))
    }
}

/// Whether the projectile in slot `j` hits the vehicle that lives in
/// slot `s`.
pub open spec fn strikes(
    vehicles: Seq<VehicleEntry>,
    slots: Seq<Slot>,
    dt: i64,
    collisions: Seq<Option<Vec2>>,
    j: int,
    s: int,
) -> bool {
    let k = target_of(vehicles, slots[j], dt, collision_at(collisions, j));
    k < vehicles.len() && vehicles[k].0.slot == s
}

/// Whether a projectile in one of the first `n` slots hits the vehicle
/// that lives in slot `s`.
pub open spec fn struck(
    vehicles: Seq<VehicleEntry>,
    slots: Seq<Slot>,
    dt: i64,
    collisions: Seq<Option<Vec2>>,
    s: int,
    n: int,
) -> bool
    decreases n,
{
    if n <= 0 {
        false
    } else {
        struck(vehicles, slots, dt, collisions, s, n - 1) || strikes(
            vehicles,
            slots,
            dt,
            collisions,
            n - 1,
            s,
        )
    }
}

/// `slot` after the hits of the frame have been applied: a vehicle that
/// was struck, and is still there, is a wreck.
pub open spec fn slot_after_strike(slot: Slot, was_struck: bool) -> Slot {
    if was_struck && slot.entity.is_some() && slot.entity.unwrap().vehicle.is_some() {
        wrecked(slot)
    } else {
        slot
    }
}

/// The first vehicle that a projectile of `owner` at `at` hits.
pub fn find_target(vehicles: &Vec<VehicleEntry>, owner: EntityId, at: Vec2) -> (k: usize)
    ensures
        k == first_target(vehicles@, owner, at, 0),
        k <= vehicles@.len(),
{
    let mut j: usize = 0;
    while j < vehicles.len()
        invariant
            j <= vehicles.len(),
            first_target(vehicles@, owner, at, 0) == first_target(vehicles@, owner, at, j as int),
        decreases vehicles.len() - j,
    {
        let v = vehicles[j];
        if !v.1 && v.0 != owner && at.within(v.2, HIT_RADIUS) {
            return j;
        }
        j += 1;
    }
    j
}

/// Where something at `pos` with velocity `vel` is after `dt` seconds.
pub fn advance(pos: Vec2, vel: Vec2, dt: i64) -> (r: Vec2)
    ensures
        r == moved(pos, vel, dt),
{
    pos.plus(vel.scaled(dt))
}

/// The paths that the projectiles want to fly in this frame, by slot:
/// from where each one is to where it wants to be. The map is asked about
/// each of them before `projectiles` runs.
pub fn projectile_paths(store: &EntityStore, dt: i64) -> (r: Vec<Option<(Vec2, Vec2)>>)
    ensures
        r@.len() == store@.len(),
        forall|i: int|
            0 <= i < store@.len() ==> #[trigger] r@[i] == if checks_path(store@[i]) {
                Some((store@[i].entity.unwrap().pos.unwrap(), candidate(store@[i], dt)))
            } else {
                None
            },
{
    let mut r: Vec<Option<(Vec2, Vec2)>> = Vec::new();
    let n = store.slots.len();
    let mut i: usize = 0;
    while i < n
        invariant
            i <= n,
            n == store@.len(),
            r@.len() == i,
            forall|k: int|
                0 <= k < i ==> #[trigger] r@[k] == if checks_path(store@[k]) {
                    Some((store@[k].entity.unwrap().pos.unwrap(), candidate(store@[k], dt)))
                } else {
                    None
                },
        decreases n - i,
    {
        let mut path: Option<(Vec2, Vec2)> = None;
        if let Some(c) = store.slots[i].entity {
            if let (Some(weapon), Some(pos), Some(vel), Some(_)) = (c.weapon, c.pos, c.vel, c.owner) {
                match weapon {
                    Weapon::Cb => {},
                    _ => {
                        path = Some((pos, advance(pos, vel, dt)));
                    },
                }
            }
        }
        r.push(path);
        i += 1;
    }
    r
}

/// The flight of the occupant of one slot: what becomes of the slot, the
/// index of the vehicle that was hit (or the number of vehicles), and
/// whether a guided missile burst. The blasts go to `explosions`.
pub fn fly(
    cvars: &Cvars,
    vehicles: &Vec<VehicleEntry>,
    slot: Slot,
    collision: Option<Vec2>,
    now: i64,
    dt: i64,
    explosions: &mut Vec<Explosion>,
) -> (r: (Slot, usize, bool))
    ensures
        r.0 == slot_after_flight(vehicles@, slot, dt, collision),
        r.1 == target_of(vehicles@, slot, dt, collision),
        r.2 == (bursts(vehicles@, slot, dt, collision) && slot.entity.unwrap().weapon == Some(
            Weapon::Gm,
        )),
        final(explosions)@ == old(explosions)@ + flight_blasts(
            cvars,
            vehicles@,
            slot,
            now,
            dt,
            collision,
        ),
{
    let ghost before = explosions@;
    let none = vehicles.len();
    if let Some(c) = slot.entity {
        if let (Some(weapon), Some(pos), Some(vel), Some(owner)) = (c.weapon, c.pos, c.vel, c.owner) {
            let new_pos = advance(pos, vel, dt);
            let mut c2 = c;
            c2.pos = Some(new_pos);
            let moved_on = Slot { generation: slot.generation, entity: Some(c2) };
            let guided = match weapon {
                Weapon::Gm => true,
                _ => false,
            };
            match weapon {
                Weapon::Cb => {
                    assert(explosions@ =~= before + Seq::<Explosion>::empty());
                    return (moved_on, none, false);
                },
                _ => {},
            }
            match collision {
                Some(point) => {
                    explosions.push(blast_of(cvars, weapon, point, now));
                    assert(explosions@ =~= before + seq![weapon_blast(cvars, weapon, point, now)]);
                    return (vacate(slot), none, guided);
                },
                None => {},
            }
            let target = find_target(vehicles, owner, new_pos);
            if target < none {
                let v = vehicles[target];
                explosions.push(Explosion::new(v.2, SCALE, now, false));
                explosions.push(blast_of(cvars, weapon, new_pos, now));
                assert(explosions@ =~= before + seq![
                    Explosion { pos: v.2, scale: SCALE, start_time: now, bfg: false },
                    weapon_blast(cvars, weapon, new_pos, now),
                ]);
                return (vacate(slot), target, guided);
            }
            assert(explosions@ =~= before + Seq::<Explosion>::empty());
            return (moved_on, none, false);
        }
    }
    assert(explosions@ =~= before + Seq::<Explosion>::empty());
    (slot, none, false)
}

/// Moves every projectile for one frame.
///
/// `collisions` holds the answers of the map, by slot: for the path of
/// the projectile in that slot, the first point at which it is blocked.
///
/// A cluster bomb just moves on. Any other projectile whose path is
/// blocked bursts at the blocking point. One with a free path moves on
/// and then hits the first vehicle, in the order of the slots, that is no
/// wreck, is not its owner and lies within the hit radius: the vehicle
/// becomes a wreck and the projectile bursts. Vehicles are judged as they
/// were when the frame began. What bursts leaves the store; if a guided
/// missile bursts, no missile is piloted any more.
pub fn projectiles(
    cvars: &Cvars,
    store: &mut EntityStore,
    gs: &mut GameState,
    collisions: &Vec<Option<Vec2>>,
)
    ensures
        final(store)@.len() == old(store)@.len(),
        forall|i: int|
            0 <= i < old(store)@.len() ==> #[trigger] final(store)@[i] == slot_after_strike(
                slot_after_flight(
                    vehicles_of(old(store)@, old(store)@.len() as int),
                    old(store)@[i],
                    old(gs).dt,
                    collision_at(collisions@, i),
                ),
                struck(
                    vehicles_of(old(store)@, old(store)@.len() as int),
                    old(store)@,
                    old(gs).dt,
                    collisions@,
                    i,
                    old(store)@.len() as int,
                ),
            ),
        final(gs).explosions@ == old(gs).explosions@ + flight_events(
            cvars,
            vehicles_of(old(store)@, old(store)@.len() as int),
            old(store)@,
            old(gs).game_time,
            old(gs).dt,
            collisions@,
            old(store)@.len() as int,
        ),
        final(gs).guided_missile == if guided_missile_bursts(
            vehicles_of(old(store)@, old(store)@.len() as int),
            old(store)@,
            old(gs).dt,
            collisions@,
            old(store)@.len() as int,
        ) {
            None
        } else {
            old(gs).guided_missile
        },
        final(gs).same_frame(old(gs)),
        final(gs).rng == old(gs).rng,
        final(gs).rail_beams == old(gs).rail_beams,
        final(gs).bfg_beams == old(gs).bfg_beams,
{
    let vehicles = all_vehicles(store);
    let n = store.slots.len();
    let now = gs.game_time;
    let dt = gs.dt;
    let mut hit: Vec<bool> = Vec::new();
    let mut m: usize = 0;
    while m < n
        invariant
            m <= n,
            hit@.len() == m,
            forall|s: int| 0 <= s < m ==> !hit@[s],
        decreases n - m,
    {
        hit.push(false);
        m += 1;
    }
    let mut i: usize = 0;
    while i < n
        invariant
            i <= n,
            n == old(store)@.len(),
            store@.len() == n,
            hit@.len() == n,
            now == old(gs).game_time,
            dt == old(gs).dt,
            vehicles@ == vehicles_of(old(store)@, n as int),
            forall|k: int|
                0 <= k < i ==> #[trigger] store@[k] == slot_after_flight(
                    vehicles@,
                    old(store)@[k],
                    dt,
                    collision_at(collisions@, k),
                ),
            forall|k: int| i <= k < n ==> #[trigger] store@[k] == old(store)@[k],
            forall|s: int|
                0 <= s < n ==> #[trigger] hit@[s] == struck(
                    vehicles@,
                    old(store)@,
                    dt,
                    collisions@,
                    s,
                    i as int,
                ),
            gs.explosions@ == old(gs).explosions@ + flight_events(
                cvars,
                vehicles@,
                old(store)@,
                now,
                dt,
                collisions@,
                i as int,
            ),
            gs.guided_missile == if guided_missile_bursts(
                vehicles@,
                old(store)@,
                dt,
                collisions@,
                i as int,
            ) {
                None
            } else {
                old(gs).guided_missile
            },
            gs.same_frame(old(gs)),
            gs.rng == old(gs).rng,
            gs.rail_beams == old(gs).rail_beams,
            gs.bfg_beams == old(gs).bfg_beams,
        decreases n - i,
    {
        let collision = if i < collisions.len() {
            collisions[i]
        } else {
            None
        };
        let ghost hit_before = hit@;
        let (slot, target, guided) = fly(
            cvars,
            &vehicles,
            store.slots[i],
            collision,
            now,
            dt,
            &mut gs.explosions,
        );
        store.slots[i] = slot;
        if guided {
            gs.guided_missile = None;
        }
        if target < vehicles.len() {
            let victim = vehicles[target].0.slot;
            if victim < n {
                hit.set(victim, true);
            }
        }
        proof {
            assert(gs.explosions@ =~= old(gs).explosions@ + flight_events(
                cvars,
                vehicles@,
                old(store)@,
                now,
                dt,
                collisions@,
                i as int + 1,
            ));
            assert forall|s: int| 0 <= s < n implies #[trigger] hit@[s] == struck(
                vehicles@,
                old(store)@,
                dt,
                collisions@,
                s,
                i as int + 1,
            ) by {
                assert(hit_before[s] == struck(vehicles@, old(store)@, dt, collisions@, s, i as int));
            }
        }
        i += 1;
    }
    let ghost flown = store@;
    let mut s: usize = 0;
    while s < n
        invariant
            s <= n,
            store@.len() == n,
            hit@.len() == n,
            flown.len() == n,
            forall|k: int| 0 <= k < s ==> #[trigger] store@[k] == slot_after_strike(flown[k], hit@[k]),
            forall|k: int| s <= k < n ==> #[trigger] store@[k] == flown[k],
        decreases n - s,
    {
        if hit[s] {
            let slot = store.slots[s];
            if let Some(c) = slot.entity {
                if let Some(vehicle) = c.vehicle {
                    let mut v = vehicle;
                    v.destroyed = true;
                    let mut c2 = c;
                    c2.vehicle = Some(v);
                    store.slots[s] = Slot { generation: slot.generation, entity: Some(c2) };
                }
            }
        }
        s += 1;
    }
}

} // verus!

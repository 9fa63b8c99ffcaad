//! What holds of the game logic as a whole, proved from the definitions
//! that the contracts of the systems use.

use vstd::prelude::*;
use vstd::arithmetic::power2::{lemma_pow2_strictly_increases, lemma_pow2_unfold, lemma2_to64, pow2};
use crate::components::EntityId;
use crate::entities::Ammo;
use crate::entity_store::Slot;
use crate::cvars::MovementStats;
use crate::fixed::{bounce, is_root, root, scaled_product, Rotation, Vec2, SCALE};
use crate::movement::{accelerated, steered};
use crate::systems::{
    can_hit, collision_at, first_target, id_of, is_projectile, is_vehicle, slot_after_flight,
    strikes, struck, target_of, vehicle_entry, vehicles_of, VehicleEntry,
};

verus! {

/// A shot starts the reload exactly when it is the last round of the
/// magazine; any other shot leaves one round less in a loaded slot. A
/// slot that is reloading is never ready to fire.
pub proof fn lemma_reload_begins_with_last_round(
    ammo: Ammo,
    now: i64,
    refire: i64,
    reload_time: i64,
)
    requires
        ammo.ready(now),
    ensures
        ammo is Loaded,
        ammo.after_shot(now, refire, reload_time) is Reloading <==> ammo->Loaded_1 == 1,
        ammo->Loaded_1 == 1 ==> ammo.after_shot(now, refire, reload_time) == Ammo::Reloading(
            now,
            crate::fixed::saturate(now + reload_time),
        ),
        ammo->Loaded_1 > 1 ==> ammo.after_shot(now, refire, reload_time) == Ammo::Loaded(
            crate::fixed::saturate(now + refire),
            (ammo->Loaded_1 - 1) as u32,
        ),
        !ammo.after_shot(now, refire, reload_time).ready(now) || ammo->Loaded_1 > 1,
{
}

/// A reload ends exactly when its end time has come, never earlier, and
/// then gives a full magazine that is ready at once. A loaded slot is
/// left as it is.
pub proof fn lemma_reload_ends_on_time(ammo: Ammo, now: i64, full: u32)
    ensures
        ammo is Reloading && now >= ammo->Reloading_1 ==> ammo.after_reload(now, full)
            == Ammo::Loaded(now, full),
        ammo is Reloading && now < ammo->Reloading_1 ==> ammo.after_reload(now, full) == ammo,
        ammo is Loaded ==> ammo.after_reload(now, full) == ammo,
        ammo is Reloading ==> !ammo.ready(now),
{
}

/// Two shots from one magazine are at least the refire delay apart: a
/// slot that has fired at `now` and is still loaded is not ready at any
/// time before `now + refire`, as long as that time is within the range
/// of scalars.
pub proof fn lemma_refire_delay(ammo: Ammo, now: i64, refire: i64, reload_time: i64, later: i64)
    requires
        ammo.ready(now),
        later < now + refire <= i64::MAX,
    ensures
        !ammo.after_shot(now, refire, reload_time).ready(later),
{
}

/// A loaded slot never runs empty: if a loaded slot holds at least one
/// round before a shot or a reload check, and a full magazine holds at
/// least one, it holds at least one afterwards too.
pub proof fn lemma_loaded_means_stocked(
    ammo: Ammo,
    now: i64,
    refire: i64,
    reload_time: i64,
    full: u32,
)
    requires
        ammo is Loaded ==> ammo->Loaded_1 >= 1,
        full >= 1,
    ensures
        ammo.ready(now) && ammo.after_shot(now, refire, reload_time) is Loaded ==> ammo.after_shot(
            now,
            refire,
            reload_time,
        )->Loaded_1 >= 1,
        ammo.after_reload(now, full) is Loaded ==> ammo.after_reload(now, full)->Loaded_1 >= 1,
{
}

/// The first target lies between `from` and the number of vehicles; if
/// it is a vehicle, the projectile can hit it, and it can hit none of
/// those before it.
pub proof fn lemma_first_target(vehicles: Seq<VehicleEntry>, owner: EntityId, at: Vec2, from: int)
    requires
        0 <= from <= vehicles.len(),
    ensures
        from <= first_target(vehicles, owner, at, from) <= vehicles.len(),
        first_target(vehicles, owner, at, from) < vehicles.len() ==> can_hit(
            vehicles[first_target(vehicles, owner, at, from)],
            owner,
            at,
        ),
        forall|k: int|
            from <= k < first_target(vehicles, owner, at, from) ==> !can_hit(
                #[trigger] vehicles[k],
                owner,
                at,
            ),
    decreases vehicles.len() - from,
{
    if from < vehicles.len() && !can_hit(vehicles[from], owner, at) {
        lemma_first_target(vehicles, owner, at, from + 1);
    }
}

/// Every entry of the list of vehicles is the entry of the vehicle in
/// the slot that its id names, for as many slots as a store can hold.
pub proof fn lemma_vehicles_of(slots: Seq<Slot>, n: int, k: int)
    requires
        0 <= n <= slots.len() <= usize::MAX,
        0 <= k < vehicles_of(slots, n).len(),
    ensures
        vehicles_of(slots, n)[k].0.slot < n,
        is_vehicle(slots[vehicles_of(slots, n)[k].0.slot as int]),
        vehicles_of(slots, n)[k] == vehicle_entry(slots, vehicles_of(slots, n)[k].0.slot as int),
    decreases n,
{
    if n > 0 {
        if k < vehicles_of(slots, n - 1).len() {
            lemma_vehicles_of(slots, n - 1, k);
        }
    }
}

/// A projectile never hits the vehicle that fired it, nor a wreck,
/// whatever its weapon and wherever the two are: the vehicle that the
/// projectile in slot `j` hits is a vehicle that was intact when the
/// frame began, and it is not the projectile's owner. This holds of as
/// many slots as a store can hold.
pub proof fn lemma_hit_exclusivity(
    slots: Seq<Slot>,
    dt: i64,
    collisions: Seq<Option<Vec2>>,
    j: int,
    s: int,
)
    requires
        0 <= j < slots.len() <= usize::MAX,
        strikes(vehicles_of(slots, slots.len() as int), slots, dt, collisions, j, s),
    ensures
        0 <= s < slots.len(),
        is_projectile(slots[j]),
        is_vehicle(slots[s]),
        !slots[s].entity.unwrap().vehicle.unwrap().destroyed,
        slots[j].entity.unwrap().owner != Some(id_of(slots, s)),
{
    let vehicles = vehicles_of(slots, slots.len() as int);
    let k = target_of(vehicles, slots[j], dt, collision_at(collisions, j));
    lemma_first_target(
        vehicles,
        slots[j].entity.unwrap().owner.unwrap(),
        crate::systems::candidate(slots[j], dt),
        0,
    );
    lemma_vehicles_of(slots, slots.len() as int, k);
}

/// A vehicle is struck only if some projectile strikes it.
pub proof fn lemma_struck_by_some_projectile(
    vehicles: Seq<VehicleEntry>,
    slots: Seq<Slot>,
    dt: i64,
    collisions: Seq<Option<Vec2>>,
    s: int,
    n: int,
)
    requires
        struck(vehicles, slots, dt, collisions, s, n),
    ensures
        exists|j: int| 0 <= j < n && strikes(vehicles, slots, dt, collisions, j, s),
    decreases n,
{
    if n > 0 {
        if strikes(vehicles, slots, dt, collisions, n - 1, s) {
        } else {
            lemma_struck_by_some_projectile(vehicles, slots, dt, collisions, s, n - 1);
            let j = choose|j: int| 0 <= j < n - 1 && strikes(vehicles, slots, dt, collisions, j, s);
            assert(0 <= j < n && strikes(vehicles, slots, dt, collisions, j, s));
        }
    }
}

/// A projectile hits one vehicle in a frame at most, however many lie
/// within its reach, and a projectile that hits one leaves the store.
pub proof fn lemma_one_hit_per_projectile(
    vehicles: Seq<VehicleEntry>,
    slots: Seq<Slot>,
    dt: i64,
    collisions: Seq<Option<Vec2>>,
    j: int,
    a: int,
    b: int,
)
    requires
        0 <= j < slots.len(),
        strikes(vehicles, slots, dt, collisions, j, a),
        strikes(vehicles, slots, dt, collisions, j, b),
    ensures
        a == b,
        slot_after_flight(vehicles, slots[j], dt, collision_at(collisions, j))
            == slots[j].vacated(),
{
}

/// The rotation by no angle leaves every vector as it is. So a vehicle
/// that does not steer and whose move is blocked has each component of
/// its velocity bounced, and nothing else.
pub proof fn lemma_identity_rotation(v: Vec2)
    ensures
        v.spec_rotated(Rotation::spec_identity()) == v,
        v.spec_rotated(Rotation::spec_identity()).spec_bounced() == v.spec_bounced(),
{
    let s = SCALE as int;
    assert(v.x * 0 == 0 && v.y * 0 == 0) by (nonlinear_arith);
    assert(scaled_product(v.x as int, s) == v.x && scaled_product(v.y as int, s) == v.y) by {
        let ax = magnitude(v.x as int);
        let ay = magnitude(v.y as int);
        vstd::arithmetic::div_mod::lemma_div_multiples_vanish(ax, s);
        vstd::arithmetic::div_mod::lemma_div_multiples_vanish(ay, s);
        assert(v.x * s == -(ax * s) || v.x * s == ax * s) by (nonlinear_arith)
            requires
                ax == v.x || ax == -v.x,
        ;
        assert(v.y * s == -(ay * s) || v.y * s == ay * s) by (nonlinear_arith)
            requires
                ay == v.y || ay == -v.y,
        ;
        assert(ax * s >= 0 && ay * s >= 0 && (ax > 0 ==> ax * s > 0) && (ay > 0 ==> ay * s > 0))
            by (nonlinear_arith)
            requires
                ax >= 0,
                ay >= 0,
                s > 0,
        ;
    }
}

/// The magnitude of a number.
pub open spec fn magnitude(x: int) -> int {
    if x < 0 {
        -x
    } else {
        x
    }
}

/// A velocity component after `n` blocked moves in a row.
pub open spec fn bounced_times(x: int, n: nat) -> int
    decreases n,
{
    if n == 0 {
        x
    } else {
        bounce(bounced_times(x, (n - 1) as nat))
    }
}

/// A blocked move reverses a velocity component and takes at least half
/// of its magnitude.
pub proof fn lemma_bounce_halves(x: int)
    ensures
        2 * magnitude(bounce(x)) <= magnitude(x),
        x > 0 ==> bounce(x) <= 0,
        x < 0 ==> bounce(x) >= 0,
        x == 0 ==> bounce(x) == 0,
{
}

/// A velocity component whose move is blocked in every frame dies out:
/// after `n` blocked moves its magnitude is at most the `2^n`-th part of
/// what it was, so it never grows, and after 64 of them it is zero.
pub proof fn lemma_blocked_velocity_dies_out(x: i64, n: nat)
    ensures
        magnitude(bounced_times(x as int, n)) * pow2(n) <= magnitude(x as int),
        magnitude(bounced_times(x as int, n)) <= magnitude(x as int),
        n >= 64 ==> bounced_times(x as int, n) == 0,
    decreases n,
{
    lemma2_to64();
    if n > 0 {
        let m = (n - 1) as nat;
        lemma_blocked_velocity_dies_out(x, m);
        lemma_bounce_halves(bounced_times(x as int, m));
        lemma_pow2_unfold(n);
        let b = magnitude(bounced_times(x as int, n));
        let a = magnitude(bounced_times(x as int, m));
        assert(b * pow2(n) <= a * pow2(m)) by (nonlinear_arith)
            requires
                2 * b <= a,
                pow2(n) == 2 * pow2(m),
                pow2(m) >= 0,
                b >= 0,
        ;
    }
    assert(pow2(n) >= 1) by {
        if n > 0 {
            lemma_pow2_strictly_increases(0, n);
        }
    }
    let b = magnitude(bounced_times(x as int, n));
    assert(b <= b * pow2(n)) by (nonlinear_arith)
        requires
            b >= 0,
            pow2(n) >= 1,
    ;
    if n >= 64 {
        if n > 64 {
            lemma_pow2_strictly_increases(64, n);
        }
        assert(b == 0) by (nonlinear_arith)
            requires
                b >= 0,
                b * pow2(n) <= 0x8000_0000_0000_0000,
                pow2(n) >= 0x10000000000000000,
        ;
    }
}

/// Decay in two half steps or in one full step comes to the same, but
/// for rounding: with a decay `half` between zero and one for a half
/// step, and its square as the decay for the full step, the two results
/// differ by less than the millionth part of the rate plus two units of
/// the last place.
pub proof fn lemma_decay_in_half_steps(x: i64, half: i64)
    requires
        0 <= half <= SCALE,
    ensures
        magnitude(
            scaled_product(x as int, scaled_product(half as int, half as int)) - scaled_product(
                scaled_product(x as int, half as int),
                half as int,
            ),
        ) * SCALE < magnitude(x as int) + 2 * SCALE,
{
    let s = SCALE as int;
    let h = half as int;
    let a = magnitude(x as int);
    // The products of the magnitudes, and their quotients.
    let y = (a * h) / s;
    let two = (y * h) / s;
    let f = (h * h) / s;
    let one = (a * f) / s;
    assert(a * h >= 0 && h * h >= 0) by (nonlinear_arith)
        requires
            a >= 0,
            h >= 0,
    ;
    assert(y >= 0 && f >= 0);
    assert(y * h >= 0 && a * f >= 0) by (nonlinear_arith)
        requires
            a >= 0,
            h >= 0,
            y >= 0,
            f >= 0,
    ;
    assert(s * y <= a * h < s * y + s && s * two <= y * h < s * two + s && s * f <= h * h < s * f
        + s && s * one <= a * f < s * one + s) by {
        vstd::arithmetic::div_mod::lemma_fundamental_div_mod(a * h, s);
        vstd::arithmetic::div_mod::lemma_fundamental_div_mod(y * h, s);
        vstd::arithmetic::div_mod::lemma_fundamental_div_mod(h * h, s);
        vstd::arithmetic::div_mod::lemma_fundamental_div_mod(a * f, s);
    }
    // Both results lie just below a * h * h / s^2.
    assert(s * s * two <= a * h * h) by (nonlinear_arith)
        requires
            s * two <= y * h,
            s * y <= a * h,
            s > 0,
            h >= 0,
    ;
    assert(s * s * two > a * h * h - 2 * s * s) by (nonlinear_arith)
        requires
            y * h < s * two + s,
            a * h < s * y + s,
            s > 0,
            0 <= h <= s,
    ;
    assert(s * s * one <= a * h * h) by (nonlinear_arith)
        requires
            s * one <= a * f,
            s * f <= h * h,
            s > 0,
            a >= 0,
    ;
    assert(s * s * one > a * h * h - s * a - s * s) by (nonlinear_arith)
        requires
            a * f < s * one + s,
            h * h < s * f + s,
            s > 0,
            a >= 0,
    ;
    assert(one - two < 2 && (two - one) * s < a + s) by (nonlinear_arith)
        requires
            s * s * two <= a * h * h,
            s * s * two > a * h * h - 2 * s * s,
            s * s * one <= a * h * h,
            s * s * one > a * h * h - s * a - s * s,
            s > 0,
    ;
    assert(magnitude(one - two) * s < a + 2 * s) by (nonlinear_arith)
        requires
            one - two < 2,
            (two - one) * s < a + s,
            a >= 0,
            s > 0,
    ;
    // The signed results are those of the magnitudes, with the sign of x.
    if x >= 0 {
        assert(scaled_product(x as int, f) == one);
        assert(scaled_product(x as int, h) == y);
        assert(scaled_product(y, h) == two);
    } else {
        assert((x as int) * f == -(a * f) && (x as int) * h == -(a * h)) by (nonlinear_arith)
            requires
                a == -(x as int),
        ;
        assert(scaled_product(x as int, f) == -one);
        assert(scaled_product(x as int, h) == -y);
        assert((-y) * h == -(y * h)) by (nonlinear_arith);
        assert(scaled_product(-y, h) == -two);
    }
}

/// The turn rate of an entity that is not steered, under friction that
/// grows with speed only and within its cap, comes out the same in two
/// half steps as in one full step, but for rounding.
pub proof fn lemma_turn_rate_in_half_steps(stats: MovementStats, turn_rate: i64, dt: i64, half: i64)
    requires
        0 <= half <= SCALE,
        stats.turn_rate_friction_const == 0,
        stats.turn_rate_max == i64::MAX,
        turn_rate > i64::MIN,
    ensures
        magnitude(
            steered(stats, turn_rate, 0, dt, scaled_product(half as int, half as int) as i64)
                - steered(stats, steered(stats, turn_rate, 0, dt, half), 0, dt, half),
        ) * SCALE < magnitude(turn_rate as int) + 2 * SCALE,
{
    let s = SCALE as int;
    let h = half as int;
    let f = scaled_product(h, h);
    assert(0 <= h * h <= s * s) by (nonlinear_arith)
        requires
            0 <= h <= s,
            s > 0,
    ;
    assert(0 <= f <= s);
    lemma_shrinks(turn_rate as int, h);
    lemma_shrinks(turn_rate as int, f);
    let y = scaled_product(turn_rate as int, h);
    lemma_shrinks(y, h);
    assert(scaled_product(0, dt as int) == 0) by (nonlinear_arith)
        requires
            scaled_product(0, dt as int) == crate::fixed::quotient(0 * dt, 1_000_000),
    ;
    lemma_decay_in_half_steps(turn_rate, half);
}

/// A decay between zero and one never makes a rate larger.
pub proof fn lemma_shrinks(x: int, decay: int)
    requires
        0 <= decay <= SCALE,
    ensures
        magnitude(scaled_product(x, decay)) <= magnitude(x),
        x >= 0 ==> scaled_product(x, decay) >= 0,
        x <= 0 ==> scaled_product(x, decay) <= 0,
{
    let s = SCALE as int;
    let a = magnitude(x);
    assert(0 <= a * decay <= a * s) by (nonlinear_arith)
        requires
            a >= 0,
            0 <= decay <= s,
    ;
    vstd::arithmetic::div_mod::lemma_fundamental_div_mod(a * decay, s);
    assert((a * decay) / s <= a) by (nonlinear_arith)
        requires
            s * ((a * decay) / s) <= a * decay,
            a * decay <= a * s,
            s > 0,
    ;
    assert((a * decay) / s >= 0);
    if x < 0 {
        assert(x * decay == -(a * decay)) by (nonlinear_arith)
            requires
                a == -x,
        ;
    }
}

/// Every number from zero on has a whole root.
pub proof fn lemma_root_exists(n: int)
    requires
        n >= 0,
    ensures
        is_root(n, root(n)),
    decreases n,
{
    if n == 0 {
        assert(is_root(0, 0));
    } else {
        lemma_root_exists(n - 1);
        let r = root(n - 1);
        assert((r + 2) * (r + 2) > (r + 1) * (r + 1)) by (nonlinear_arith)
            requires
                r >= 0,
        ;
        if n < (r + 1) * (r + 1) {
            assert(is_root(n, r));
        } else {
            assert(is_root(n, r + 1));
        }
    }
}

/// The largest velocity component for which the laws on velocities are
/// stated; larger ones may meet the ends of the range of scalars.
pub open spec fn moderate(v: Vec2) -> bool {
    &&& -0x4000_0000_0000_0000 <= v.x <= 0x4000_0000_0000_0000
    &&& -0x4000_0000_0000_0000 <= v.y <= 0x4000_0000_0000_0000
}

/// Without throttle, without constant friction and without a cap, a
/// frame does nothing to a velocity but let it decay.
pub proof fn lemma_coasting(stats: MovementStats, vel: Vec2, dt: i64, facing: Rotation, decay: i64)
    requires
        0 <= decay <= SCALE,
        stats.friction_const == 0,
        stats.speed_max == i64::MAX,
        moderate(vel),
    ensures
        accelerated(stats, vel, 0, dt, facing, decay) == vel.spec_scaled(decay),
        moderate(vel.spec_scaled(decay)),
{
    assert(facing.cos * 0 == 0 && facing.sin * 0 == 0 && 0 * dt == 0) by (nonlinear_arith);
    assert(vel.spec_magnitude_squared() >= 0) by (nonlinear_arith)
        requires
            vel.spec_magnitude_squared() == vel.x * vel.x + vel.y * vel.y,
    ;
    lemma_root_exists(vel.spec_magnitude_squared());
    let direction = vel.spec_normalized();
    assert(direction.x * 0 == 0 && direction.y * 0 == 0) by (nonlinear_arith);
    lemma_shrinks(vel.x as int, decay as int);
    lemma_shrinks(vel.y as int, decay as int);
    let slower = vel.spec_scaled(decay);
    assert(slower.x * slower.x + slower.y * slower.y <= i64::MAX * i64::MAX) by (nonlinear_arith)
        requires
            -0x4000_0000_0000_0000 <= slower.x <= 0x4000_0000_0000_0000,
            -0x4000_0000_0000_0000 <= slower.y <= 0x4000_0000_0000_0000,
    ;
}

/// The velocity of an entity that coasts, under friction that grows with
/// speed only and without a cap, comes out the same in two half steps as
/// in one full step, but for rounding in each component.
pub proof fn lemma_velocity_in_half_steps(
    stats: MovementStats,
    vel: Vec2,
    dt: i64,
    facing: Rotation,
    half: i64,
)
    requires
        0 <= half <= SCALE,
        stats.friction_const == 0,
        stats.speed_max == i64::MAX,
        moderate(vel),
    ensures
        ({
            let full = scaled_product(half as int, half as int) as i64;
            let once = accelerated(stats, vel, 0, dt, facing, full);
            let twice = accelerated(
                stats,
                accelerated(stats, vel, 0, dt, facing, half),
                0,
                dt,
                facing,
                half,
            );
            &&& magnitude(once.x - twice.x) * SCALE < magnitude(vel.x as int) + 2 * SCALE
            &&& magnitude(once.y - twice.y) * SCALE < magnitude(vel.y as int) + 2 * SCALE
        }),
{
    let s = SCALE as int;
    let h = half as int;
    assert(0 <= h * h <= s * s) by (nonlinear_arith)
        requires
            0 <= h <= s,
            s > 0,
    ;
    let full = scaled_product(h, h) as i64;
    lemma_coasting(stats, vel, dt, facing, full);
    lemma_coasting(stats, vel, dt, facing, half);
    lemma_coasting(stats, vel.spec_scaled(half), dt, facing, half);
    lemma_shrinks(vel.x as int, h);
    lemma_shrinks(vel.y as int, h);
    lemma_shrinks(vel.x as int, full as int);
    lemma_shrinks(vel.y as int, full as int);
    lemma_shrinks(scaled_product(vel.x as int, h), h);
    lemma_shrinks(scaled_product(vel.y as int, h), h);
    lemma_decay_in_half_steps(vel.x, half);
    lemma_decay_in_half_steps(vel.y, half);
}

/// The way that a velocity covers in two half steps is the way that it
/// covers in one full step, but for one unit of the last place.
pub proof fn lemma_way_in_half_steps(v: i64, half_dt: i64)
    requires
        half_dt >= 0,
    ensures
        magnitude(scaled_product(v as int, 2 * half_dt) - 2 * scaled_product(v as int, half_dt as int))
            <= 1,
{
    let s = SCALE as int;
    let a = magnitude(v as int);
    let p = a * half_dt;
    assert(p >= 0 && a * (2 * half_dt) == 2 * p) by (nonlinear_arith)
        requires
            a >= 0,
            half_dt >= 0,
            p == a * half_dt,
    ;
    vstd::arithmetic::div_mod::lemma_fundamental_div_mod(p, s);
    vstd::arithmetic::div_mod::lemma_fundamental_div_mod(2 * p, s);
    assert(2 * (p / s) <= (2 * p) / s <= 2 * (p / s) + 1) by (nonlinear_arith)
        requires
            p == s * (p / s) + p % s,
            2 * p == s * ((2 * p) / s) + (2 * p) % s,
            0 <= p % s < s,
            0 <= (2 * p) % s < s,
            s > 0,
    ;
    if v < 0 {
        assert((v as int) * half_dt == -p && (v as int) * (2 * half_dt) == -(2 * p))
            by (nonlinear_arith)
            requires
                a == -(v as int),
                p == a * half_dt,
        ;
    }
}

} // verus!

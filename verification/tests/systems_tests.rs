use rand::rngs::SmallRng;
use rand::SeedableRng;
use rec_wars::components::{EntityId, VehicleType, Weapon};
use rec_wars::cvars::Cvars;
use rec_wars::entities::{Ammo, Vehicle};
use rec_wars::entity_store::{Components, EntityStore};
use rec_wars::fixed::{Rotation, Vec2, SCALE};
use rec_wars::game_state::{Explosion, GameState, Input};
use rec_wars::random::ClusterSample;
use rec_wars::shooting::{launch, shooting, Aim};
use rec_wars::systems::{
    all_vehicles, projectile_paths, projectiles, projectiles_timeout, self_destruct, turrets,
};

fn state() -> GameState {
    GameState::new(SmallRng::seed_from_u64(7))
}

fn tank(cvars: &Cvars, store: &mut EntityStore, x: i64, y: i64) -> EntityId {
    let vehicle = Vehicle::new(cvars, VehicleType::Tank);
    let hitbox = cvars.g_vehicle_hitbox(VehicleType::Tank);
    store.create(Components::vehicle(vehicle, Vec2::new(x, y), 0, hitbox))
}

fn straight() -> Aim {
    Aim {
        hull: Rotation::identity(),
        barrel: Rotation::identity(),
        muzzle: Rotation::identity(),
        heading: 0,
        rail_hit: None,
        cluster: Vec::new(),
    }
}

#[test]
fn self_destruct_wrecks_and_makes_two_blasts() {
    let cvars = Cvars::new_rec_wars();
    let mut store = EntityStore::new();
    let mut gs = state();
    gs.advance(3 * SCALE);
    let id = tank(&cvars, &mut store, 5 * SCALE, 6 * SCALE);
    gs.input.self_destruct = true;
    self_destruct(&cvars, &mut store, &mut gs);
    assert!(store.get(id).unwrap().vehicle.unwrap().destroyed);
    assert_eq!(store.get(id).unwrap().pos, Some(Vec2::new(5 * SCALE, 6 * SCALE)));
    assert_eq!(
        gs.explosions,
        vec![
            Explosion::new(Vec2::new(5 * SCALE, 6 * SCALE), 2 * SCALE, 3 * SCALE, false),
            Explosion::new(Vec2::new(5 * SCALE, 6 * SCALE), SCALE, 3 * SCALE, false),
        ]
    );
    assert_eq!(gs.explosions[0].start_time, gs.explosions[1].start_time);
    assert_ne!(gs.explosions[0].scale, gs.explosions[1].scale);
    // A wreck does not blow up again.
    self_destruct(&cvars, &mut store, &mut gs);
    assert_eq!(gs.explosions.len(), 2);
}

#[test]
fn self_destruct_needs_the_input() {
    let cvars = Cvars::new_rec_wars();
    let mut store = EntityStore::new();
    let mut gs = state();
    let id = tank(&cvars, &mut store, 0, 0);
    self_destruct(&cvars, &mut store, &mut gs);
    assert!(!store.get(id).unwrap().vehicle.unwrap().destroyed);
    assert!(gs.explosions.is_empty());
}

#[test]
fn last_machine_gun_round_starts_the_reload() {
    let cvars = Cvars::new_rec_wars();
    let mut store = EntityStore::new();
    let mut gs = state();
    gs.advance(2 * SCALE);
    let mut vehicle = Vehicle::new(&cvars, VehicleType::Tank);
    vehicle.set_ammo(Weapon::Mg, Ammo::Loaded(SCALE, 1));
    let hitbox = cvars.g_vehicle_hitbox(VehicleType::Tank);
    let id = store.create(Components::vehicle(vehicle, Vec2::new(0, 0), 0, hitbox));
    gs.input.fire = true;
    gs.cur_weapon = Weapon::Mg;
    let shots = shooting(&cvars, &mut store, &gs);
    assert_eq!(shots.len(), 1);
    assert_eq!(shots[0].owner, id);
    assert_eq!(
        store.get(id).unwrap().vehicle.unwrap().get_ammo(Weapon::Mg),
        Ammo::Reloading(2 * SCALE, 2 * SCALE + cvars.g_machine_gun_reload_time)
    );
    for shot in &shots {
        launch(&cvars, &mut store, &mut gs, shot, &straight());
    }
    let bullets: Vec<Components> = store
        .slots
        .iter()
        .filter_map(|s| s.entity)
        .filter(|c| c.weapon.is_some())
        .collect();
    assert_eq!(bullets.len(), 1);
    assert_eq!(bullets[0].weapon, Some(Weapon::Mg));
    assert_eq!(bullets[0].owner, Some(id));
    // The turret's joint sits 5 units behind the tank's centre, and the
    // machine gun 12 units ahead of the joint and 5 to the side.
    assert_eq!(bullets[0].pos, Some(Vec2::new(7 * SCALE, -5 * SCALE)));
    assert_eq!(bullets[0].vel, Some(Vec2::new(1000 * SCALE, 0)));
    // No second shot while reloading.
    let shots = shooting(&cvars, &mut store, &gs);
    assert!(shots.is_empty());
}

#[test]
fn blocked_projectile_bursts_at_the_blocking_point() {
    let cvars = Cvars::new_rec_wars();
    let mut store = EntityStore::new();
    let mut gs = state();
    gs.advance(SCALE);
    let owner = tank(&cvars, &mut store, -500 * SCALE, 0);
    let rocket = store.create(Components::projectile(
        Weapon::Rockets,
        Vec2::new(0, 0),
        Vec2::new(10 * SCALE, 0),
        owner,
    ));
    let paths = projectile_paths(&store, gs.dt);
    assert_eq!(paths[rocket.slot], Some((Vec2::new(0, 0), Vec2::new(10 * SCALE, 0))));
    assert_eq!(paths[owner.slot], None);
    let mut collisions = vec![None; paths.len()];
    collisions[rocket.slot] = Some(Vec2::new(5 * SCALE, 0));
    projectiles(&cvars, &mut store, &mut gs, &collisions);
    assert_eq!(store.get(rocket), None);
    assert!(store.slots[rocket.slot].entity.is_none());
    assert_eq!(
        gs.explosions,
        vec![Explosion::new(Vec2::new(5 * SCALE, 0), SCALE / 2, SCALE, false)]
    );
    assert!(!store.get(owner).unwrap().vehicle.unwrap().destroyed);
}

#[test]
fn projectile_hits_first_vehicle_only_and_never_its_owner() {
    let cvars = Cvars::new_rec_wars();
    let mut store = EntityStore::new();
    let mut gs = state();
    gs.advance(SCALE);
    let owner = tank(&cvars, &mut store, 10 * SCALE, 0);
    let first = tank(&cvars, &mut store, 12 * SCALE, 0);
    let second = tank(&cvars, &mut store, 8 * SCALE, 0);
    let bfg = store.create(Components::projectile(
        Weapon::Bfg,
        Vec2::new(0, 0),
        Vec2::new(10 * SCALE, 0),
        owner,
    ));
    projectiles(&cvars, &mut store, &mut gs, &Vec::new());
    assert!(!store.get(owner).unwrap().vehicle.unwrap().destroyed);
    assert!(store.get(first).unwrap().vehicle.unwrap().destroyed);
    assert!(!store.get(second).unwrap().vehicle.unwrap().destroyed);
    assert_eq!(store.get(bfg), None);
    assert_eq!(
        gs.explosions,
        vec![
            Explosion::new(Vec2::new(12 * SCALE, 0), SCALE, SCALE, false),
            Explosion::new(Vec2::new(10 * SCALE, 0), SCALE, SCALE, true),
        ]
    );
}

#[test]
fn projectile_out_of_reach_flies_on() {
    let cvars = Cvars::new_rec_wars();
    let mut store = EntityStore::new();
    let mut gs = state();
    gs.advance(SCALE / 2);
    let owner = tank(&cvars, &mut store, 0, 0);
    let other = tank(&cvars, &mut store, 100 * SCALE, 25 * SCALE);
    let rocket = store.create(Components::projectile(
        Weapon::Rockets,
        Vec2::new(90 * SCALE, 0),
        Vec2::new(20 * SCALE, 0),
        owner,
    ));
    projectiles(&cvars, &mut store, &mut gs, &Vec::new());
    // 25 units off: just outside the radius of 24.
    assert_eq!(store.get(rocket).unwrap().pos, Some(Vec2::new(100 * SCALE, 0)));
    assert!(!store.get(other).unwrap().vehicle.unwrap().destroyed);
    assert!(gs.explosions.is_empty());
    // On the border of the radius it hits.
    let mut c = store.get(other).unwrap();
    c.pos = Some(Vec2::new(110 * SCALE, 24 * SCALE));
    store.replace(other, c);
    projectiles(&cvars, &mut store, &mut gs, &Vec::new());
    assert!(store.get(other).unwrap().vehicle.unwrap().destroyed);
    assert_eq!(store.get(rocket), None);
}

#[test]
fn cluster_bombs_ignore_walls_and_vehicles_until_their_fuze_runs_out() {
    let cvars = Cvars::new_rec_wars();
    let mut store = EntityStore::new();
    let mut gs = state();
    gs.advance(SCALE);
    let owner = tank(&cvars, &mut store, -900 * SCALE, 0);
    let other = tank(&cvars, &mut store, 10 * SCALE, 0);
    let mut c = Components::projectile(Weapon::Cb, Vec2::new(0, 0), Vec2::new(10 * SCALE, 0), owner);
    c.time = Some(SCALE + SCALE / 2);
    let bomb = store.create(c);
    let collisions = vec![Some(Vec2::new(5 * SCALE, 0)); 3];
    projectiles(&cvars, &mut store, &mut gs, &collisions);
    assert_eq!(store.get(bomb).unwrap().pos, Some(Vec2::new(10 * SCALE, 0)));
    assert!(!store.get(other).unwrap().vehicle.unwrap().destroyed);
    projectiles_timeout(&cvars, &mut store, &mut gs);
    assert!(store.get(bomb).is_some());
    gs.advance(SCALE / 2);
    // At the deadline itself the bomb is still there.
    projectiles_timeout(&cvars, &mut store, &mut gs);
    assert!(store.get(bomb).is_some());
    gs.advance(1);
    projectiles_timeout(&cvars, &mut store, &mut gs);
    assert_eq!(store.get(bomb), None);
    assert_eq!(
        gs.explosions,
        vec![Explosion::new(Vec2::new(10 * SCALE, 0), SCALE / 2, SCALE + SCALE / 2, false)]
    );
}

#[test]
fn guided_missile_that_bursts_is_no_longer_piloted() {
    let cvars = Cvars::new_rec_wars();
    let mut store = EntityStore::new();
    let mut gs = state();
    let owner = tank(&cvars, &mut store, 0, 0);
    gs.player_entity = Some(owner);
    gs.input.fire = true;
    gs.cur_weapon = Weapon::Gm;
    let shots = shooting(&cvars, &mut store, &gs);
    assert_eq!(shots.len(), 1);
    launch(&cvars, &mut store, &mut gs, &shots[0], &straight());
    let missile = gs.guided_missile.unwrap();
    let c = store.get(missile).unwrap();
    assert!(c.guided_missile);
    assert_eq!(c.weapon, Some(Weapon::Gm));
    assert_eq!(c.turn_rate, Some(0));
    assert_eq!(c.input, Some(Input::new()));
    gs.advance(SCALE);
    let mut collisions = vec![None; store.len()];
    collisions[missile.slot] = Some(Vec2::new(1, 1));
    projectiles(&cvars, &mut store, &mut gs, &collisions);
    assert_eq!(gs.guided_missile, None);
    assert_eq!(store.get(missile), None);
}

#[test]
fn only_the_local_player_launches_guided_missiles() {
    let cvars = Cvars::new_rec_wars();
    let mut store = EntityStore::new();
    let mut gs = state();
    let owner = tank(&cvars, &mut store, 0, 0);
    gs.input.fire = true;
    gs.cur_weapon = Weapon::Gm;
    let shots = shooting(&cvars, &mut store, &gs);
    launch(&cvars, &mut store, &mut gs, &shots[0], &straight());
    assert_eq!(gs.guided_missile, None);
    assert_eq!(store.len(), 1);
    // The round is used up all the same.
    assert_eq!(
        store.get(owner).unwrap().vehicle.unwrap().get_ammo(Weapon::Gm),
        Ammo::Reloading(0, cvars.g_guided_missile_reload_time)
    );
}

#[test]
fn rail_shot_records_a_beam_where_the_map_blocks_it() {
    let cvars = Cvars::new_rec_wars();
    let mut store = EntityStore::new();
    let mut gs = state();
    tank(&cvars, &mut store, 0, 0);
    gs.input.fire = true;
    gs.cur_weapon = Weapon::Rail;
    let shots = shooting(&cvars, &mut store, &gs);
    let (begin, end) = rec_wars::shooting::rail_path(&shots[0], Rotation::identity(), Rotation::identity());
    assert_eq!(begin, Vec2::new(30 * SCALE, 0));
    assert_eq!(end, Vec2::new(100_030 * SCALE, 0));
    let mut aim = straight();
    launch(&cvars, &mut store, &mut gs, &shots[0], &aim);
    assert!(gs.rail_beams.is_empty());
    aim.rail_hit = Some(Vec2::new(300 * SCALE, 0));
    launch(&cvars, &mut store, &mut gs, &shots[0], &aim);
    assert_eq!(gs.rail_beams.len(), 1);
    assert_eq!(gs.rail_beams[0].begin, begin);
    assert_eq!(gs.rail_beams[0].end, Vec2::new(300 * SCALE, 0));
    assert_eq!(store.len(), 1);
}

#[test]
fn cluster_shot_sends_one_bomb_per_sample() {
    let cvars = Cvars::new_rec_wars();
    let mut store = EntityStore::new();
    let mut gs = state();
    gs.advance(SCALE);
    let owner = tank(&cvars, &mut store, 0, 0);
    gs.input.fire = true;
    gs.cur_weapon = Weapon::Cb;
    let shots = shooting(&cvars, &mut store, &gs);
    let mut aim = straight();
    aim.cluster = vec![
        ClusterSample { forward: 0, sideways: 0, fuze: 0 },
        ClusterSample { forward: SCALE, sideways: -SCALE, fuze: SCALE / 2 },
    ];
    launch(&cvars, &mut store, &mut gs, &shots[0], &aim);
    assert_eq!(store.len(), 3);
    let a = store.slots[1].entity.unwrap();
    let b = store.slots[2].entity.unwrap();
    assert_eq!(a.weapon, Some(Weapon::Cb));
    assert_eq!(a.owner, Some(owner));
    assert_eq!(a.vel, Some(Vec2::new(400 * SCALE, 0)));
    assert_eq!(a.time, Some(SCALE + 800_000));
    assert_eq!(b.vel, Some(Vec2::new(450 * SCALE, -50 * SCALE)));
    assert_eq!(b.time, Some(SCALE + 800_000 + 100_000));
}

#[test]
fn uniform_cluster_samples_stay_in_range() {
    let cvars = Cvars::new_rec_wars();
    let mut rng = SmallRng::seed_from_u64(1);
    let samples = rec_wars::random::uniform_cluster_samples(&cvars, &mut rng);
    assert_eq!(samples.len(), 40);
    for s in &samples {
        assert!(-1_500_000 <= s.forward && s.forward < 1_500_000);
        assert!(-1_500_000 <= s.sideways && s.sideways < 1_500_000);
        assert!(-SCALE <= s.fuze && s.fuze < SCALE);
    }
    assert!(samples.iter().any(|s| s.forward != samples[0].forward));
}

#[test]
fn turret_turns_and_reload_ends_on_time() {
    let cvars = Cvars::new_rec_wars();
    let mut store = EntityStore::new();
    let mut gs = state();
    let mut vehicle = Vehicle::new(&cvars, VehicleType::Tank);
    vehicle.set_ammo(Weapon::Rockets, Ammo::Reloading(0, 2 * SCALE));
    let hitbox = cvars.g_vehicle_hitbox(VehicleType::Tank);
    let id = store.create(Components::vehicle(vehicle, Vec2::new(0, 0), 0, hitbox));
    gs.cur_weapon = Weapon::Rockets;
    gs.input.turret_right = true;
    gs.advance(SCALE);
    turrets(&cvars, &mut store, &gs);
    let v = store.get(id).unwrap().vehicle.unwrap();
    assert_eq!(v.turret_angle, cvars.g_turret_turn_speed);
    assert_eq!(v.get_ammo(Weapon::Rockets), Ammo::Reloading(0, 2 * SCALE));
    gs.input.turret_right = false;
    gs.input.turret_left = true;
    gs.advance(SCALE - 1);
    turrets(&cvars, &mut store, &gs);
    let v = store.get(id).unwrap().vehicle.unwrap();
    assert_eq!(v.get_ammo(Weapon::Rockets), Ammo::Reloading(0, 2 * SCALE));
    gs.advance(1);
    turrets(&cvars, &mut store, &gs);
    let v = store.get(id).unwrap().vehicle.unwrap();
    assert_eq!(v.get_ammo(Weapon::Rockets), Ammo::Loaded(2 * SCALE, 6));
    assert!(v.turret_angle < cvars.g_turret_turn_speed);
}

#[test]
fn all_vehicles_lists_vehicles_in_slot_order() {
    let cvars = Cvars::new_rec_wars();
    let mut store = EntityStore::new();
    let a = tank(&cvars, &mut store, SCALE, 0);
    store.create(Components::projectile(Weapon::Mg, Vec2::zero(), Vec2::zero(), a));
    let b = tank(&cvars, &mut store, 2 * SCALE, 0);
    let list = all_vehicles(&store);
    assert_eq!(list.len(), 2);
    assert_eq!(list[0].0, a);
    assert_eq!(list[1].0, b);
    assert_eq!(list[1].2, Vec2::new(2 * SCALE, 0));
    assert!(!list[0].1);
}

#[test]
fn turret_weapons_are_carried_by_the_hull_and_turned_by_the_turret() {
    let cvars = Cvars::new_rec_wars();
    let mut store = EntityStore::new();
    let mut gs = state();
    let mut vehicle = Vehicle::new(&cvars, VehicleType::Tank);
    vehicle.turret_angle = 500_000;
    let hitbox = cvars.g_vehicle_hitbox(VehicleType::Tank);
    let mut c = Components::vehicle(vehicle, Vec2::new(100 * SCALE, 100 * SCALE), 250_000, hitbox);
    c.vel = Some(Vec2::new(3 * SCALE, 4 * SCALE));
    store.create(c);
    gs.input.fire = true;
    gs.cur_weapon = Weapon::Rockets;
    let shots = shooting(&cvars, &mut store, &gs);
    assert_eq!(shots[0].hull_angle, 250_000);
    assert_eq!(shots[0].shot_angle, 750_000);
    assert_eq!(shots[0].turret_offset, Vec2::new(-5 * SCALE, 0));
    assert_eq!(
        shots[0].weapon_offset,
        Vec2::new(cvars.g_hardpoint_tank_rockets_x, cvars.g_hardpoint_tank_rockets_y)
    );
    // The hull has made a quarter turn, the barrel half a turn.
    let mut aim = straight();
    aim.hull = Rotation { cos: 0, sin: SCALE };
    aim.barrel = Rotation { cos: -SCALE, sin: 0 };
    launch(&cvars, &mut store, &mut gs, &shots[0], &aim);
    let rocket = store.slots[1].entity.unwrap();
    assert_eq!(
        rocket.pos,
        Some(Vec2::new(
            100 * SCALE - cvars.g_hardpoint_tank_rockets_x,
            95 * SCALE - cvars.g_hardpoint_tank_rockets_y
        ))
    );
    // 600 units per second backward, plus all of the vehicle's velocity.
    assert_eq!(rocket.vel, Some(Vec2::new(-597 * SCALE, 4 * SCALE)));
    // A weapon on the chassis does not care for the turret.
    gs.cur_weapon = Weapon::Hm;
    let shots = shooting(&cvars, &mut store, &gs);
    assert_eq!(shots[0].shot_angle, 250_000);
}

#[test]
fn machine_gun_bullets_stray_by_the_sample() {
    let cvars = Cvars::new_rec_wars();
    assert_eq!(rec_wars::shooting::machine_gun_spread(&cvars, 0), 0);
    assert_eq!(rec_wars::shooting::machine_gun_spread(&cvars, 2 * SCALE), 30_000);
    assert_eq!(rec_wars::shooting::machine_gun_spread(&cvars, -SCALE / 2), -7_500);
}

#[test]
fn normal_cluster_samples_take_their_speed_factors_from_the_caller() {
    let mut cvars = Cvars::new_rec_wars();
    cvars.g_cluster_bomb_count = 3;
    let mut rng = SmallRng::seed_from_u64(5);
    let normals = vec![10, -20, 30, -40, 50];
    let samples = rec_wars::random::cluster_samples(&cvars, &mut rng, &normals);
    assert_eq!(samples.len(), 2);
    assert_eq!((samples[0].forward, samples[0].sideways), (10, -20));
    assert_eq!((samples[1].forward, samples[1].sideways), (30, -40));
    assert!(samples.iter().all(|s| -SCALE <= s.fuze && s.fuze < SCALE));
    cvars.g_cluster_bomb_count = 1;
    assert_eq!(rec_wars::random::cluster_samples(&cvars, &mut rng, &normals).len(), 1);
    cvars.g_cluster_bomb_speed_spread_gaussian = false;
    cvars.g_cluster_bomb_count = 7;
    let samples = rec_wars::random::cluster_samples(&cvars, &mut rng, &normals);
    assert_eq!(samples.len(), 7);
    cvars.g_cluster_bomb_count = -7;
    assert!(rec_wars::random::cluster_samples(&cvars, &mut rng, &normals).is_empty());
}

#[test]
fn cluster_shot_stops_at_the_configured_count() {
    let mut cvars = Cvars::new_rec_wars();
    cvars.g_cluster_bomb_count = 1;
    let mut store = EntityStore::new();
    let mut gs = state();
    tank(&cvars, &mut store, 0, 0);
    gs.input.fire = true;
    gs.cur_weapon = Weapon::Cb;
    let shots = shooting(&cvars, &mut store, &gs);
    let mut aim = straight();
    aim.cluster = vec![ClusterSample { forward: 0, sideways: 0, fuze: 0 }; 5];
    launch(&cvars, &mut store, &mut gs, &shots[0], &aim);
    assert_eq!(store.len(), 2);
}

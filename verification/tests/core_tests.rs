use rand::rngs::SmallRng;
use rand::SeedableRng;
use rec_wars::components::{EntityId, Hitbox, VehicleType, Weapon, WEAPS_CNT};
use rec_wars::cvars::{Cvars, Hardpoint, MovementStats, TickrateMode};
use rec_wars::debugging::{cleanup, debug_cross, debug_line, DbgCounter, DebugSink, WorldText};
use rec_wars::entities::{Ammo, GuidedMissile, Vehicle};
use rec_wars::entity_store::{Components, EntityStore};
use rec_wars::fixed::{
    bounced, clamped, directed, integer_root, limited, minus, plus, product, slow_down, times,
    Rotation, Vec2, SCALE,
};
use rec_wars::game_state::{GameState, Input, InputsPrev, Player, RailHits};
use rec_wars::movement::{accelerate, headings, movement, steer, Decay};

const QUARTER_TURN: Rotation = Rotation { cos: 0, sin: SCALE };

fn plain_stats() -> MovementStats {
    MovementStats {
        accel_backward: 0,
        accel_forward: 0,
        friction_const: 0,
        friction_linear: 0,
        speed_max: i64::MAX,
        steering_car: 0,
        turn_effectiveness: 0,
        turn_rate_friction_const: 0,
        turn_rate_friction_linear: 0,
        turn_rate_increase: 0,
        turn_rate_max: i64::MAX,
    }
}

#[test]
fn sums_saturate() {
    assert_eq!(plus(2, 3), 5);
    assert_eq!(plus(i64::MAX, 1), i64::MAX);
    assert_eq!(plus(i64::MIN, -1), i64::MIN);
    assert_eq!(minus(2, 3), -1);
    assert_eq!(minus(i64::MIN, 1), i64::MIN);
    assert_eq!(minus(0, i64::MIN), i64::MAX);
}

#[test]
fn products_round_toward_zero_and_saturate() {
    assert_eq!(times(3 * SCALE, 2 * SCALE), 6 * SCALE);
    assert_eq!(times(SCALE / 2, SCALE / 2), SCALE / 4);
    assert_eq!(times(3, SCALE / 2), 1);
    assert_eq!(times(-3, SCALE / 2), -1);
    assert_eq!(times(-1, 1), 0);
    assert_eq!(times(i64::MAX, 2 * SCALE), i64::MAX);
    assert_eq!(times(i64::MIN, 2 * SCALE), i64::MIN);
    assert_eq!(times(i64::MIN, -2 * SCALE), i64::MAX);
    assert_eq!(product(i64::MAX, 2 * SCALE), 2 * (i64::MAX as i128));
}

#[test]
fn bounce_reverses_and_halves() {
    assert_eq!(bounced(10), -5);
    assert_eq!(bounced(-10), 5);
    assert_eq!(bounced(5), -2);
    assert_eq!(bounced(-5), 2);
    assert_eq!(bounced(1), 0);
    assert_eq!(bounced(0), 0);
    assert_eq!(bounced(i64::MIN), 1 << 62);
    assert_eq!(Vec2::new(8, -3).bounced(), Vec2::new(-4, 1));
}

#[test]
fn blocked_velocity_dies_out() {
    let mut v = Vec2::new(i64::MAX, i64::MIN);
    let mut last = (i64::MAX as i128, -(i64::MIN as i128));
    for _ in 0..64 {
        v = v.bounced();
        let now = ((v.x as i128).abs(), (v.y as i128).abs());
        assert!(2 * now.0 <= last.0 && 2 * now.1 <= last.1);
        last = now;
    }
    assert_eq!(v, Vec2::zero());
}

#[test]
fn clamp_limits_to_the_range() {
    assert_eq!(clamped(7, 5, 10), 7);
    assert_eq!(clamped(4, 5, 10), 5);
    assert_eq!(clamped(5, 5, 10), 5);
    assert_eq!(clamped(10, 5, 10), 10);
    assert_eq!(clamped(11, 5, 10), 10);
    assert_eq!(limited(-7, 3), -3);
    assert_eq!(limited(7, 3), 3);
    assert_eq!(limited(2, 3), 2);
    assert_eq!(limited(5, -1), 0);
    assert_eq!(limited(i64::MAX, i64::MAX), i64::MAX);
    assert_eq!(limited(-12345, i64::MAX), -12345);
    assert_eq!(limited(i64::MIN, i64::MAX), -i64::MAX);
}

#[test]
fn constant_friction_stops_at_zero() {
    assert_eq!(slow_down(5, 3), 2);
    assert_eq!(slow_down(5, 7), 0);
    assert_eq!(slow_down(-5, 3), -2);
    assert_eq!(slow_down(-5, 7), 0);
    assert_eq!(slow_down(0, 7), 0);
    assert_eq!(directed(1, 9), 9);
    assert_eq!(directed(0, 9), 0);
    assert_eq!(directed(-1, 9), -9);
    assert_eq!(directed(-1, i64::MIN), i64::MAX);
}

#[test]
fn integer_root_rounds_down() {
    assert_eq!(integer_root(0), 0);
    assert_eq!(integer_root(1), 1);
    assert_eq!(integer_root(15), 3);
    assert_eq!(integer_root(16), 4);
    assert_eq!(integer_root(17), 4);
    assert_eq!(integer_root(u128::MAX), u64::MAX);
    assert_eq!(integer_root(1 << 126), 1 << 63);
}

#[test]
fn vector_operations() {
    let v = Vec2::new(3 * SCALE, 4 * SCALE);
    assert_eq!(v.plus(Vec2::new(1, -1)), Vec2::new(3 * SCALE + 1, 4 * SCALE - 1));
    assert_eq!(v.minus(Vec2::new(1, -1)), Vec2::new(3 * SCALE - 1, 4 * SCALE + 1));
    assert_eq!(v.scaled(2 * SCALE), Vec2::new(6 * SCALE, 8 * SCALE));
    assert_eq!(v.magnitude(), 5 * SCALE as u64);
    assert_eq!(v.magnitude_squared(), 25 * (SCALE as u128) * (SCALE as u128));
    assert_eq!(v.normalized(), Vec2::new(600_000, 800_000));
    assert_eq!(Vec2::zero().normalized(), Vec2::zero());
    assert_eq!(Vec2::new(i64::MIN, i64::MIN).magnitude(), 13_043_817_825_332_782_212);
    assert_eq!(v.rotated(Rotation::identity()), v);
    assert_eq!(v.rotated(QUARTER_TURN), Vec2::new(-4 * SCALE, 3 * SCALE));
    assert_eq!(
        Vec2::new(i64::MIN, i64::MIN).rotated(Rotation { cos: i64::MIN, sin: i64::MIN }),
        Vec2::new(0, i64::MAX)
    );
}

#[test]
fn within_includes_the_border() {
    let c = Vec2::new(10, 10);
    assert!(c.within(Vec2::new(13, 14), 5));
    assert!(!c.within(Vec2::new(13, 15), 5));
    assert!(c.within(c, 0));
    assert!(!c.within(c, -1));
    assert!(!Vec2::new(i64::MIN, 0).within(Vec2::new(i64::MAX, 0), i64::MAX));
    assert!(Vec2::new(0, 0).within(Vec2::new(i64::MAX, 0), i64::MAX));
}

#[test]
fn turn_rate_rises_by_the_input() {
    let mut stats = plain_stats();
    stats.turn_rate_increase = 10 * SCALE;
    let mut input = Input::new();
    input.right = true;
    assert_eq!(steer(&stats, 0, &input, SCALE, SCALE), 10 * SCALE);
    input.left = true;
    assert_eq!(steer(&stats, 0, &input, SCALE, SCALE), 0);
    input.right = false;
    assert_eq!(steer(&stats, 0, &input, SCALE, SCALE), -10 * SCALE);
}

#[test]
fn turn_rate_friction_decay_and_cap() {
    let mut stats = plain_stats();
    stats.turn_rate_increase = 10 * SCALE;
    stats.turn_rate_friction_const = 2 * SCALE;
    stats.turn_rate_max = 3 * SCALE;
    let mut input = Input::new();
    input.right = true;
    // (0 + 10 * 0.5 - 2 * 0.5) * 0.5 = 2
    assert_eq!(steer(&stats, 0, &input, SCALE / 2, SCALE / 2), 2 * SCALE);
    // (4 + 5 - 1) * 0.5 = 4, capped at 3
    assert_eq!(steer(&stats, 4 * SCALE, &input, SCALE / 2, SCALE / 2), 3 * SCALE);
    // Friction does not push a resting rate the other way.
    assert_eq!(steer(&stats, SCALE / 2, &Input::new(), SCALE, SCALE), 0);
    assert_eq!(steer(&stats, -SCALE / 2, &Input::new(), SCALE, SCALE), 0);
}

#[test]
fn half_steps_of_decay_make_a_full_step() {
    let stats = plain_stats();
    let half = SCALE / 2;
    let full = times(half, half);
    let once = steer(&stats, 8 * SCALE, &Input::new(), SCALE, full);
    let twice = steer(
        &stats,
        steer(&stats, 8 * SCALE, &Input::new(), SCALE / 2, half),
        &Input::new(),
        SCALE / 2,
        half,
    );
    assert_eq!(once, 2 * SCALE);
    assert_eq!(twice, once);
}

#[test]
fn coasting_velocity_in_half_steps() {
    let stats = plain_stats();
    let half = 900_000;
    let full = times(half, half);
    assert_eq!(full, 810_000);
    let v = Vec2::new(1_234_567_891, -987_654_321);
    let rest = Input::new();
    let once = accelerate(&stats, v, &rest, SCALE, QUARTER_TURN, full);
    let mid = accelerate(&stats, v, &rest, SCALE / 2, QUARTER_TURN, half);
    let twice = accelerate(&stats, mid, &rest, SCALE / 2, QUARTER_TURN, half);
    assert_eq!(once, Vec2::new(999_999_991, -800_000_000));
    assert_eq!(mid, Vec2::new(1_111_111_101, -888_888_888));
    assert_eq!(twice, Vec2::new(999_999_990, -799_999_999));
}

#[test]
fn velocity_push_friction_decay_and_cap() {
    let mut stats = plain_stats();
    stats.accel_forward = 550 * SCALE;
    stats.friction_const = 50 * SCALE;
    let mut input = Input::new();
    input.up = true;
    let v = accelerate(&stats, Vec2::zero(), &input, SCALE, Rotation::identity(), SCALE / 2);
    assert_eq!(v, Vec2::new(250 * SCALE, 0));
    let v = accelerate(&stats, Vec2::zero(), &input, SCALE, QUARTER_TURN, SCALE / 2);
    assert_eq!(v, Vec2::new(0, 250 * SCALE));
    stats.speed_max = 100 * SCALE;
    let v = accelerate(&stats, Vec2::zero(), &input, SCALE, Rotation::identity(), SCALE / 2);
    assert_eq!(v, Vec2::new(100 * SCALE, 0));
    input.up = false;
    input.down = true;
    let v = accelerate(&stats, Vec2::zero(), &input, SCALE, Rotation::identity(), SCALE);
    assert_eq!(v, Vec2::new(-100 * SCALE, 0));
    // At rest and without input nothing moves, and friction takes no more
    // than the whole speed.
    let rest = accelerate(&stats, Vec2::zero(), &Input::new(), SCALE, Rotation::identity(), SCALE);
    assert_eq!(rest, Vec2::zero());
    let slow = accelerate(
        &stats,
        Vec2::new(3 * SCALE, 4 * SCALE),
        &Input::new(),
        SCALE,
        Rotation::identity(),
        SCALE,
    );
    assert_eq!(slow, Vec2::zero());
}

#[test]
fn movement_changes_driven_entities_only() {
    let mut cvars = Cvars::new_rec_wars();
    cvars.g_tank_turn_rate_increase = 10 * SCALE;
    cvars.g_tank_turn_rate_friction_const = 0;
    cvars.g_tank_turn_rate_friction_linear = 0;
    let mut store = EntityStore::new();
    let mut gs = GameState::new(SmallRng::seed_from_u64(1));
    gs.advance(SCALE);
    let vehicle = Vehicle::new(&cvars, VehicleType::Tank);
    let hitbox = cvars.g_vehicle_hitbox(VehicleType::Tank);
    let mut c = Components::vehicle(vehicle, Vec2::new(5, 5), 0, hitbox);
    let parked = store.create(c);
    let mut input = Input::new();
    input.right = true;
    c.input = Some(input);
    let driven = store.create(c);
    assert_eq!(headings(&store), vec![None, Some(0)]);
    let facings = vec![Rotation::identity(), Rotation::identity()];
    let decay = Decay { turn_rate: SCALE, velocity: SCALE };
    movement(&cvars, &mut store, &gs, &facings, decay);
    assert_eq!(store.get(parked).unwrap().turn_rate, Some(0));
    assert_eq!(store.get(driven).unwrap().turn_rate, Some(10 * SCALE));
    assert_eq!(store.get(driven).unwrap().vel, Some(Vec2::zero()));
    assert_eq!(store.get(driven).unwrap().pos, Some(Vec2::new(5, 5)));
    // Without a facing the entity is left alone.
    movement(&cvars, &mut store, &gs, &vec![Rotation::identity()], decay);
    assert_eq!(store.get(driven).unwrap().turn_rate, Some(10 * SCALE));
}

#[test]
fn vehicle_tick_resolves_turn_and_move_on_their_own() {
    let cvars = Cvars::new_rec_wars();
    let vehicle = Vehicle::new(&cvars, VehicleType::Tank);
    let start = (Vec2::new(0, 0), Vec2::new(10 * SCALE, 0), 100, 8);
    let (mut pos, mut vel, mut angle, mut turn_rate) = start;
    vehicle.tick(SCALE, &mut pos, &mut vel, &mut angle, &mut turn_rate, Rotation::identity(), false, false);
    assert_eq!((pos, vel, angle, turn_rate), (Vec2::new(10 * SCALE, 0), Vec2::new(10 * SCALE, 0), 108, 8));
    let (mut pos, mut vel, mut angle, mut turn_rate) = start;
    vehicle.tick(SCALE, &mut pos, &mut vel, &mut angle, &mut turn_rate, Rotation::identity(), true, false);
    assert_eq!((pos, vel, angle, turn_rate), (Vec2::new(10 * SCALE, 0), Vec2::new(10 * SCALE, 0), 100, -4));
    let (mut pos, mut vel, mut angle, mut turn_rate) = start;
    vehicle.tick(SCALE, &mut pos, &mut vel, &mut angle, &mut turn_rate, Rotation::identity(), false, true);
    assert_eq!((pos, vel, angle, turn_rate), (Vec2::new(0, 0), Vec2::new(-5 * SCALE, 0), 108, 8));
    let (mut pos, mut vel, mut angle, mut turn_rate) = start;
    vehicle.tick(SCALE / 2, &mut pos, &mut vel, &mut angle, &mut turn_rate, QUARTER_TURN, true, false);
    assert_eq!((pos, vel, angle, turn_rate), (Vec2::new(0, 5 * SCALE), Vec2::new(0, 10 * SCALE), 100, -4));
    assert_eq!(
        Vehicle::plan(SCALE / 2, start.0, start.1, start.2, start.3, QUARTER_TURN),
        (108, Vec2::new(0, 5 * SCALE))
    );
    assert_eq!(Vehicle::steering_angle(&cvars, 7 * SCALE), 7 * SCALE);
}

#[test]
fn hitbox_corners_turn_with_the_vehicle() {
    let hitbox = Hitbox { mins: Vec2::new(-2, -1), maxs: Vec2::new(2, 1) };
    assert_eq!(
        hitbox.corners(Vec2::new(10, 10), Rotation::identity()),
        [Vec2::new(8, 9), Vec2::new(12, 9), Vec2::new(12, 11), Vec2::new(8, 11)]
    );
    assert_eq!(
        hitbox.corners(Vec2::new(10, 10), QUARTER_TURN),
        [Vec2::new(11, 8), Vec2::new(11, 12), Vec2::new(9, 12), Vec2::new(9, 8)]
    );
}

#[test]
fn ammo_state_machine() {
    let mut ammo = Ammo::Loaded(10, 2);
    assert!(!ammo.shoot(9, 5, 100));
    assert_eq!(ammo, Ammo::Loaded(10, 2));
    assert!(ammo.shoot(10, 5, 100));
    assert_eq!(ammo, Ammo::Loaded(15, 1));
    assert!(!ammo.shoot(14, 5, 100));
    assert!(ammo.shoot(20, 5, 100));
    assert_eq!(ammo, Ammo::Reloading(20, 120));
    assert!(!ammo.shoot(500, 5, 100));
    assert!(!ammo.reload(119, 50));
    assert_eq!(ammo, Ammo::Reloading(20, 120));
    assert!(ammo.reload(120, 50));
    assert_eq!(ammo, Ammo::Loaded(120, 50));
    assert!(!ammo.reload(130, 7));
    assert_eq!(ammo, Ammo::Loaded(120, 50));
    let mut empty = Ammo::Loaded(0, 0);
    assert!(!empty.shoot(1, 5, 100));
    assert_eq!(empty, Ammo::Loaded(0, 0));
}

#[test]
fn new_vehicle_is_intact_and_loaded() {
    let cvars = Cvars::new_rec_wars();
    let v = Vehicle::new(&cvars, VehicleType::Hummer);
    assert_eq!(v.veh_type, VehicleType::Hummer);
    assert!(!v.destroyed);
    assert_eq!(v.turret_angle, 0);
    assert_eq!(v.hp, SCALE);
    assert_eq!(v.ammos.len(), WEAPS_CNT);
    assert_eq!(v.get_ammo(Weapon::Mg), Ammo::Loaded(0, 50));
    assert_eq!(v.get_ammo(Weapon::Rockets), Ammo::Loaded(0, 6));
    assert_eq!(v.get_ammo(Weapon::Bfg), Ammo::Loaded(0, 1));
    for i in 0..WEAPS_CNT {
        assert_eq!(Weapon::n(i).unwrap().index(), i);
    }
    assert_eq!(Weapon::n(WEAPS_CNT), None);
}

#[test]
fn guided_missile_flight() {
    let mut cvars = Cvars::new_rec_wars();
    cvars.g_guided_missile_speed_initial = 100 * SCALE;
    cvars.g_guided_missile_speed_min = 300 * SCALE;
    cvars.g_guided_missile_speed_max = 500 * SCALE;
    cvars.g_guided_missile_speed_change = 600 * SCALE;
    cvars.g_guided_missile_turn_rate_increase = 30 * SCALE;
    cvars.g_guided_missile_turn_rate_decrease = SCALE;
    cvars.g_guided_missile_turn_rate_max = 2 * SCALE;
    let mut m = GuidedMissile::spawn(&cvars, Vec2::new(1, 2), QUARTER_TURN);
    assert_eq!(m.pos, Vec2::new(1, 2));
    assert_eq!(m.vel, Vec2::new(0, 100 * SCALE));
    assert_eq!(m.turn_rate, 0);
    let mut input = Input::new().missile_while_guiding();
    // 100 + 600 * 0.1 = 160, raised to the least speed.
    let angle = m.tick_controls(SCALE / 10, &cvars, &input, SCALE);
    assert_eq!(m.vel, Vec2::new(0, 300 * SCALE));
    assert_eq!(m.turn_rate, 0);
    assert_eq!(angle, 0);
    input.right = true;
    // 0 + 30 * 0.1 = 3, capped at 2.
    let angle = m.tick_controls(SCALE / 10, &cvars, &input, SCALE);
    assert_eq!(m.vel, Vec2::new(0, 360 * SCALE));
    assert_eq!(m.turn_rate, 2 * SCALE);
    assert_eq!(angle, 200_000);
    input.right = false;
    // Decay takes 2 - 2 * 0.9 = 0.2, the constant share 0.1.
    let angle = m.tick_controls(SCALE / 10, &cvars, &input, 900_000);
    assert_eq!(m.turn_rate, 1_700_000);
    assert_eq!(angle, 170_000);
    assert_eq!(m.vel, Vec2::new(0, 420 * SCALE));
    let pos = m.tick_flight(SCALE / 10, QUARTER_TURN);
    assert_eq!(m.vel, Vec2::new(-420 * SCALE, 0));
    assert_eq!(pos, Vec2::new(1 - 42 * SCALE, 2));
    assert_eq!(m.pos, pos);
}

#[test]
fn store_ids_go_stale() {
    let mut store = EntityStore::new();
    let a = store.create(Components::new());
    let b = store.create(Components::new());
    assert_eq!(a, EntityId { slot: 0, generation: 0 });
    assert_eq!(b, EntityId { slot: 1, generation: 0 });
    assert_eq!(store.id_at(0), Some(a));
    assert_eq!(store.id_at(2), None);
    let mut c = Components::new();
    c.time = Some(5);
    assert!(store.replace(a, c));
    assert_eq!(store.remove(a), Some(c));
    assert_eq!(store.remove(a), None);
    assert_eq!(store.get(a), None);
    assert!(!store.replace(a, c));
    assert_eq!(store.id_at(0), None);
    let d = store.create(Components::new());
    assert_eq!(d, EntityId { slot: 0, generation: 1 });
    assert_eq!(store.get(a), None);
    assert_eq!(store.get(d), Some(Components::new()));
    assert_eq!(store.get(b), Some(Components::new()));
    assert_eq!(store.len(), 2);
    assert_eq!(store.get(EntityId { slot: 9, generation: 0 }), None);
    assert_eq!(store.iter_handles(), vec![d, b]);
}

#[test]
fn store_retires_a_slot_whose_generation_is_used_up() {
    let mut store = EntityStore::new();
    let a = store.create(Components::new());
    store.slots[0].generation = u32::MAX - 1;
    let a = EntityId { slot: a.slot, generation: u32::MAX - 1 };
    assert!(store.get(a).is_some());
    store.remove(a);
    assert_eq!(store.slots[0].generation, u32::MAX);
    let b = store.create(Components::new());
    assert_eq!(b, EntityId { slot: 1, generation: 0 });
}

#[test]
fn inputs_merge_and_split() {
    let mut a = Input::new();
    a.left = true;
    a.fire = true;
    let mut b = Input::new_up();
    b.fire = true;
    b.pause = true;
    let m = a.merged(b);
    assert!(m.left && m.up && m.fire && m.pause);
    assert!(!m.right && !m.down && !m.mine && !m.chat && !m.horn);
    assert_eq!(m.right_left(), -1);
    assert_eq!(m.up_down(), 1);
    assert_eq!(m.up(), 1);
    assert_eq!(m.down(), 0);
    assert_eq!(Input::new().merged(Input::new()), Input::new());
    assert_eq!(Input::default(), Input::new());
    let mut both = Input::new();
    both.left = true;
    both.right = true;
    both.down = true;
    assert_eq!(both.right_left(), 0);
    assert_eq!(both.up_down(), -1);
    let g = both.missile_while_guiding();
    assert!(g.up && !g.down && g.left && g.right);
    let mut v = m;
    v.left = false;
    v.up = false;
    assert_eq!(m.vehicle_while_guiding(), v);
}

#[test]
fn previous_inputs_default_to_neutral() {
    let mut prev = InputsPrev::new();
    assert_eq!(prev.get(3), Input::new());
    prev.fill(&vec![(3, Input::new_up()), (4, Input::new()), (3, Input::new().missile_while_guiding())]);
    assert_eq!(prev.get(3), Input::new().missile_while_guiding());
    assert_eq!(prev.get(4), Input::new());
    prev.fill(&vec![(5, Input::new_up())]);
    assert_eq!(prev.get(3), Input::new());
    assert_eq!(prev.get(5), Input::new_up());
}

#[test]
fn snapshot_takes_the_inputs_of_the_players_in_the_arena() {
    let mut gs = GameState::new(SmallRng::seed_from_u64(0));
    let gone = gs.players.insert(Player { input: Input::new_up() });
    let mut firing = Input::new();
    firing.fire = true;
    let a = gs.players.insert(Player { input: firing });
    let b = gs.players.insert(Player { input: Input::new_up() });
    gs.players.remove(gone);
    gs.snapshot_inputs();
    assert_eq!(gs.inputs_prev.get(a.to_bits()), firing);
    assert_eq!(gs.inputs_prev.get(b.to_bits()), Input::new_up());
    assert_eq!(gs.inputs_prev.get(gone.to_bits()), Input::new());
    gs.players.remove(a);
    let mut prev = InputsPrev::new();
    prev.snapshot(&gs.players);
    assert_eq!(prev.get(a.to_bits()), Input::new());
    assert_eq!(prev.get(b.to_bits()), Input::new_up());
}

#[test]
fn rail_hits_remember_the_last_vehicle_only() {
    let p = EntityId { slot: 1, generation: 0 };
    let a = EntityId { slot: 2, generation: 0 };
    let b = EntityId { slot: 3, generation: 0 };
    let mut hits = RailHits::new();
    assert!(hits.may_hit(p, a));
    hits.record(p, a);
    assert!(!hits.may_hit(p, a));
    assert!(hits.may_hit(p, b));
    assert!(hits.may_hit(b, a));
    hits.record(p, b);
    assert!(!hits.may_hit(p, b));
    assert!(hits.may_hit(p, a));
}

#[test]
fn clock_never_runs_backward() {
    let mut gs = GameState::new(SmallRng::seed_from_u64(0));
    assert_eq!((gs.game_time, gs.game_time_prev, gs.dt), (0, 0, 0));
    assert_eq!(gs.cur_weapon, Weapon::Mg);
    gs.advance(16_000);
    assert_eq!((gs.game_time, gs.game_time_prev, gs.dt), (16_000, 0, 16_000));
    gs.advance(-5);
    assert_eq!((gs.game_time, gs.game_time_prev, gs.dt), (16_000, 16_000, 0));
    gs.advance(i64::MAX);
    assert_eq!((gs.game_time, gs.game_time_prev, gs.dt), (i64::MAX, 16_000, i64::MAX));
}

#[test]
fn configuration_lookups() {
    let cvars = Cvars::new_rec_wars();
    assert_eq!(cvars, Cvars::default());
    assert_eq!(
        cvars.g_hardpoint(VehicleType::Tank, Weapon::Mg),
        (Hardpoint::Turret, Vec2::new(12 * SCALE, -5 * SCALE))
    );
    assert_eq!(
        cvars.g_hardpoint(VehicleType::Hummer, Weapon::Bfg),
        (Hardpoint::Chassis, Vec2::new(cvars.g_hardpoint_hummer_bfg_x, cvars.g_hardpoint_hummer_bfg_y))
    );
    assert_eq!(cvars.g_hardpoint(VehicleType::Hovercraft, Weapon::Hm).0, Hardpoint::Chassis);
    assert_eq!(
        cvars.g_vehicle_hitbox(VehicleType::Hovercraft),
        Hitbox { mins: Vec2::new(-22 * SCALE, -14 * SCALE), maxs: Vec2::new(22 * SCALE, 14 * SCALE) }
    );
    assert_eq!(cvars.g_vehicle_hp(VehicleType::Tank), 50 * SCALE);
    assert_eq!(cvars.g_vehicle_hp(VehicleType::Hovercraft), 32_500_000);
    assert_eq!(cvars.g_vehicle_hp(VehicleType::Hummer), 31_250_000);
    let stats = cvars.g_vehicle_movement_stats(VehicleType::Hummer);
    assert_eq!(stats.accel_forward, 600 * SCALE);
    assert_eq!(stats.friction_const, 11 * SCALE);
    assert_eq!(stats.turn_rate_max, i64::MAX);
    assert_eq!(stats.steering_car, 200 * SCALE);
    let stats = cvars.g_weapon_movement_stats();
    assert_eq!(stats.accel_backward, 0);
    assert_eq!(stats.accel_forward, 2000 * SCALE);
    assert_eq!(stats.turn_rate_increase, 30 * SCALE);
    assert_eq!(cvars.g_vehicle_turret_offset_chassis(VehicleType::Hovercraft), Vec2::new(-9 * SCALE, 5 * SCALE));
    assert_eq!(cvars.g_vehicle_turret_offset_turret(VehicleType::Tank), Vec2::new(-14 * SCALE, 0));
    assert_eq!(cvars.g_weapon_damage_direct(Weapon::Rail), 47 * SCALE);
    assert_eq!(cvars.g_weapon_damage_direct(Weapon::Mg), 2_500_000);
    assert_eq!(cvars.g_weapon_explosion_damage(Weapon::Mg), 0);
    assert_eq!(cvars.g_weapon_explosion_damage(Weapon::Bfg), 100 * SCALE);
    assert_eq!(cvars.g_weapon_explosion_radius(Weapon::Rail), 0);
    assert_eq!(cvars.g_weapon_explosion_radius(Weapon::Cb), 20 * SCALE);
    assert_eq!(cvars.g_weapon_explosion_scale(Weapon::Rockets), SCALE / 2);
    assert_eq!(cvars.g_weapon_explosion_scale(Weapon::Mg), 0);
    assert_eq!(cvars.g_weapon_refire(Weapon::Mg), 50_000);
    assert_eq!(cvars.g_weapon_refire(Weapon::Rockets), 200_000);
    assert_eq!(cvars.g_weapon_refire(Weapon::Gm), 0);
    assert_eq!(cvars.g_weapon_reload_ammo(Weapon::Mg), 50);
    assert_eq!(cvars.g_weapon_reload_time(Weapon::Bfg), 2_500_000);
    assert_eq!(cvars.sv_tickrate_mode, TickrateMode::Synchronized);
}

#[test]
fn balance_presets() {
    let mut cvars = Cvars::new_rec_war();
    assert_eq!(cvars.g_railgun_speed, 1_000_000 * SCALE);
    assert_eq!(cvars.g_machine_gun_speed, 1000 * SCALE);
    cvars.g_armor = 1;
    cvars.load_rec_wars();
    assert_eq!(cvars, Cvars::new_rec_wars());
    assert_eq!(cvars.g_railgun_speed, 2500 * SCALE);
    cvars.load_rec_war();
    assert_eq!(cvars, Cvars::new_rec_war());
}

#[test]
fn cleanup_keeps_what_has_time_left() {
    let mut sink = DebugSink::new();
    debug_line(&mut sink, Vec2::new(0, 0), Vec2::new(1, 1), 0, "red");
    debug_line(&mut sink, Vec2::new(0, 0), Vec2::new(2, 2), 5, "blue");
    debug_line(&mut sink, Vec2::new(0, 0), Vec2::new(3, 3), -1, "red");
    debug_line(&mut sink, Vec2::new(0, 0), Vec2::new(4, 4), 1, "green");
    debug_cross(&mut sink, Vec2::new(7, 7), 3, "red");
    debug_cross(&mut sink, Vec2::new(8, 8), 0, "red");
    sink.texts.push(String::from("a"));
    sink.texts_world.push(WorldText { msg: String::from("b"), pos: Vec2::new(1, 2) });
    cleanup(&mut sink);
    assert_eq!(sink.lines.len(), 2);
    assert_eq!((sink.lines[0].end, sink.lines[0].color), (Vec2::new(2, 2), "blue"));
    assert_eq!((sink.lines[1].end, sink.lines[1].time), (Vec2::new(4, 4), 1));
    assert_eq!(sink.crosses.len(), 1);
    assert_eq!(sink.crosses[0].point, Vec2::new(7, 7));
    assert!(sink.texts.is_empty());
    assert!(sink.texts_world.is_empty());
}

#[test]
fn counter_reports_at_the_end() {
    let mut sink = DebugSink::new();
    let mut counter = DbgCounter::new("element count");
    let mut items = vec![1, 2, 3].into_iter();
    let mut seen = Vec::new();
    while let Some(x) = counter.next(items.next(), &mut sink) {
        seen.push(x);
    }
    assert_eq!(seen, vec![1, 2, 3]);
    assert_eq!(counter.cnt, 3);
    assert_eq!(sink.texts, vec![String::from("element count: 3")]);
}

#[test]
fn configuration_names() {
    assert_eq!(Hardpoint::Chassis.name(), "Chassis");
    assert_eq!(Hardpoint::Turret.name(), "Turret");
    assert_eq!(Hardpoint::parse("Chassis"), Some(Hardpoint::Chassis));
    assert_eq!(Hardpoint::parse("Turret"), Some(Hardpoint::Turret));
    assert_eq!(Hardpoint::parse("turret"), None);
    assert_eq!(Hardpoint::parse(""), None);
    assert_eq!(TickrateMode::Synchronized.name(), "Synchronized");
    assert_eq!(TickrateMode::parse("SynchronizedTwice"), Some(TickrateMode::SynchronizedTwice));
    assert_eq!(TickrateMode::parse("Fixed"), Some(TickrateMode::Fixed));
    assert_eq!(TickrateMode::parse(TickrateMode::Fixed.name()), Some(TickrateMode::Fixed));
    assert_eq!(TickrateMode::parse("Fixed "), None);
    assert_eq!(VehicleType::n(0), Some(VehicleType::Tank));
    assert_eq!(VehicleType::n(1), Some(VehicleType::Hovercraft));
    assert_eq!(VehicleType::n(2), Some(VehicleType::Hummer));
    assert_eq!(VehicleType::n(3), None);
    assert_eq!(VehicleType::n(-1), None);
}

use rec_wars::client::{route_inputs, ClientMode};
use rec_wars::fixed::{Vec2, SCALE};
use rec_wars::game_state::Input;
use rec_wars::world::World;

#[test]
fn keys_push_the_missile() {
    let mut world = World::new(Vec2::new(1000 * SCALE, 1000 * SCALE));
    assert_eq!(world.pos, Vec2::new(640 * SCALE, 640 * SCALE));
    assert_eq!(world.vel, Vec2::new(20_000, 10_000));
    world.input(SCALE, 0, 0, SCALE);
    assert_eq!(world.vel, Vec2::new(10_000, 20_000));
    world.input(0, SCALE, SCALE, 0);
    assert_eq!(world.vel, Vec2::new(20_000, 10_000));
    world.input(SCALE, SCALE, 0, 0);
    assert_eq!(world.vel, Vec2::new(20_000, 10_000));
}

#[test]
fn missile_stops_at_the_edges() {
    let mut world = World::new(Vec2::new(1000 * SCALE, 700 * SCALE));
    world.update_pre(1000 * SCALE);
    assert_eq!(world.pos, Vec2::new(660 * SCALE, 650 * SCALE));
    assert_eq!(world.vel, Vec2::new(20_000, 10_000));
    assert_eq!(world.prev_update, 1000 * SCALE);
    world.update_pre(6000 * SCALE);
    assert_eq!(world.pos, Vec2::new(760 * SCALE, 700 * SCALE));
    assert_eq!(world.vel, Vec2::new(20_000, 0));
    world.vel = Vec2::new(-SCALE, 0);
    world.update_pre(7000 * SCALE);
    assert_eq!(world.pos, Vec2::new(0, 700 * SCALE));
    assert_eq!(world.vel, Vec2::new(0, 0));
}

#[test]
fn tiles_are_64_units_wide() {
    assert_eq!(World::to_tile_pos(Vec2::new(0, 64 * SCALE - 1)), (0, 0));
    assert_eq!(World::to_tile_pos(Vec2::new(64 * SCALE, 640 * SCALE)), (1, 10));
    assert_eq!(World::to_tile_pos(Vec2::new(-5 * SCALE, 129 * SCALE)), (0, 2));
}

#[test]
fn blasts_are_shown_for_26_frames() {
    let mut world = World::new(Vec2::new(SCALE, SCALE));
    world.explosions = vec![
        (Vec2::new(1, 1), 0),
        (Vec2::new(2, 2), 25),
        (Vec2::new(3, 3), 24),
        (Vec2::new(4, 4), i32::MAX),
    ];
    world.update_post();
    assert_eq!(world.explosions, vec![(Vec2::new(1, 1), 1), (Vec2::new(3, 3), 25)]);
    world.update_post();
    assert_eq!(world.explosions, vec![(Vec2::new(1, 1), 2)]);
    world.debug_text(String::from("hello"));
    assert_eq!(world.debug_texts, vec![String::from("hello")]);
}

#[test]
fn inputs_reach_their_players() {
    let mut keys1 = Input::new();
    keys1.left = true;
    let mut keys2 = Input::new();
    keys2.fire = true;
    let single = route_inputs(ClientMode::Singleplayer { player_handle: 7 }, keys1, keys2);
    assert_eq!(single, vec![(7, keys1.merged(keys2))]);
    assert!(single[0].1.left && single[0].1.fire);
    let split = route_inputs(ClientMode::Splitscreen { player_handles: (7, 9) }, keys1, keys2);
    assert_eq!(split, vec![(7, keys1), (9, keys2)]);
}

#[test]
fn input_description_names_what_is_set() {
    assert_eq!(Input::new().describe(), "Input { }");
    let mut input = Input::new();
    input.left = true;
    input.fire = true;
    input.pause = true;
    assert_eq!(input.describe(), "Input { left fire pause }");
    let all = Input {
        left: true,
        right: true,
        up: true,
        down: true,
        turret_left: true,
        turret_right: true,
        prev_weapon: true,
        next_weapon: true,
        fire: true,
        mine: true,
        self_destruct: true,
        horn: true,
        chat: true,
        pause: true,
    };
    assert_eq!(
        all.describe(),
        "Input { left right up down turret_left turret_right prev_weapon next_weapon fire mine self_destruct horn chat pause }"
    );
}

#[test]
fn view_follows_the_missile_but_stays_on_the_map() {
    let mut world = World::new(Vec2::new(1000 * SCALE, 1000 * SCALE));
    let canvas = Vec2::new(400 * SCALE, 300 * SCALE);
    assert_eq!(world.top_left(canvas), Vec2::new(440 * SCALE, 490 * SCALE));
    world.pos = Vec2::new(10 * SCALE, 990 * SCALE);
    assert_eq!(world.top_left(canvas), Vec2::new(0, 700 * SCALE));
    world.pos = Vec2::new(990 * SCALE, 10 * SCALE);
    assert_eq!(world.top_left(canvas), Vec2::new(600 * SCALE, 0));
}

#[test]
fn tiles_cover_the_canvas() {
    // The view begins 8 units into the seventh tile; 100 units take the
    // rest of that tile and one more.
    let line = World::tile_line(392 * SCALE, 100 * SCALE, false);
    assert_eq!(line, vec![(6, -8 * SCALE), (7, 56 * SCALE)]);
    let line = World::tile_line(392 * SCALE + 5, 120 * SCALE, false);
    assert_eq!(line, vec![(6, -8 * SCALE - 5), (7, 56 * SCALE - 5), (8, 120 * SCALE - 5)]);
    let line = World::tile_line(392 * SCALE + 5, 120 * SCALE, true);
    assert_eq!(line, vec![(6, -8 * SCALE), (7, 56 * SCALE)]);
    assert_eq!(World::tile_line(0, 64 * SCALE, false), vec![(0, 0)]);
    assert_eq!(World::tile_line(0, 64 * SCALE + 1, false), vec![(0, 0), (1, 64 * SCALE)]);
    assert_eq!(World::tile_line(0, 0, false), vec![]);
    assert_eq!(World::tile_line(10, -5, false), vec![(0, -10)]);
}

#[test]
fn blast_pictures_stay_for_two_frames() {
    assert_eq!(World::sprite_offset(0), 0);
    assert_eq!(World::sprite_offset(1), 0);
    assert_eq!(World::sprite_offset(2), 100 * SCALE);
    assert_eq!(World::sprite_offset(25), 1200 * SCALE);
    assert_eq!(World::sprite_offset(-3), 0);
    assert_eq!(World::sprite_offset(i32::MAX), 1_073_741_823 * 100 * SCALE);
}

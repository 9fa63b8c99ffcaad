//! State of a match that belongs to no single entity: the clock, the
//! random number generator, the visual events of the frame, and the
//! players' inputs.

use vstd::prelude::*;
use std::collections::HashMap;
use rand::rngs::SmallRng;
use thunderdome::Arena;
use crate::components::{EntityId, Weapon};
use crate::fixed::{plus, saturate, Vec2};

verus! {

/// What a player wants to do during one frame.
#[derive(Clone, Copy, Debug, PartialEq, Eq, Structural)]
pub struct Input {
    pub left: bool,
    pub right: bool,
    pub up: bool,
    pub down: bool,
    pub turret_left: bool,
    pub turret_right: bool,
    pub prev_weapon: bool,
    pub next_weapon: bool,
    pub fire: bool,
    pub mine: bool,
    pub self_destruct: bool,
    pub horn: bool,
    pub chat: bool,
    pub pause: bool,
}

impl Input {
    /// The input of a player who does nothing.
    pub open spec fn neutral() -> Input {
        Input {
            left: false,
            right: false,
            up: false,
            down: false,
            turret_left: false,
            turret_right: false,
            prev_weapon: false,
            next_weapon: false,
            fire: false,
            mine: false,
            self_destruct: false,
            horn: false,
            chat: false,
            pause: false,
        }
    }

    /// The input of a player who does nothing.
    pub fn new() -> (r: Input)
        ensures
            r == Self::neutral(),
    {
        Input {
            left: false,
            right: false,
            up: false,
            down: false,
            turret_left: false,
            turret_right: false,
            prev_weapon: false,
            next_weapon: false,
            fire: false,
            mine: false,
            self_destruct: false,
            horn: false,
            chat: false,
            pause: false,
        }
    }

    /// The input of a player who only drives forward.
    pub fn new_up() -> (r: Input)
        ensures
            r == (Input { up: true, ..Self::neutral() }),
    {
        let mut r = Self::new();
        r.up = true;
        r
    }

    /// Both inputs at once: each intent holds if either source has it.
    pub open spec fn spec_merged(self, other: Input) -> Input {
        Input {
            left: self.left || other.left,
            right: self.right || other.right,
            up: self.up || other.up,
            down: self.down || other.down,
            turret_left: self.turret_left || other.turret_left,
            turret_right: self.turret_right || other.turret_right,
            prev_weapon: self.prev_weapon || other.prev_weapon,
            next_weapon: self.next_weapon || other.next_weapon,
            fire: self.fire || other.fire,
            mine: self.mine || other.mine,
            self_destruct: self.self_destruct || other.self_destruct,
            horn: self.horn || other.horn,
            chat: self.chat || other.chat,
            pause: self.pause || other.pause,
        }
    }

    /// Both inputs at once.
    pub fn merged(&self, other: Input) -> (r: Input)
        ensures
            r == self.spec_merged(other),
    {
        Input {
            left: self.left || other.left,
            right: self.right || other.right,
            up: self.up || other.up,
            down: self.down || other.down,
            turret_left: self.turret_left || other.turret_left,
            turret_right: self.turret_right || other.turret_right,
            prev_weapon: self.prev_weapon || other.prev_weapon,
            next_weapon: self.next_weapon || other.next_weapon,
            fire: self.fire || other.fire,
            mine: self.mine || other.mine,
            self_destruct: self.self_destruct || other.self_destruct,
            horn: self.horn || other.horn,
            chat: self.chat || other.chat,
            pause: self.pause || other.pause,
        }
    }

    /// `1` for `true`, `0` for `false`.
    pub open spec fn unit(b: bool) -> int {
        if b {
            1
        } else {
            0
        }
    }

    /// The steering axis as a whole number: right minus left.
    pub open spec fn spec_right_left(self) -> int {
        Self::unit(self.right) - Self::unit(self.left)
    }

    /// The steering axis as a whole number: `1` for right, `-1` for left,
    /// `0` for both or neither.
    pub fn right_left(&self) -> (r: i64)
        ensures
            r == self.spec_right_left(),
    {
        let r: i64 = if self.right { 1 } else { 0 };
        let l: i64 = if self.left { 1 } else { 0 };
        r - l
    }

    /// The throttle axis as a whole number: up minus down.
    pub open spec fn spec_up_down(self) -> int {
        Self::unit(self.up) - Self::unit(self.down)
    }

    /// The throttle axis as a whole number: `1` for forward, `-1` for
    /// backward, `0` for both or neither.
    pub fn up_down(&self) -> (r: i64)
        ensures
            r == self.spec_up_down(),
    {
        let u: i64 = if self.up { 1 } else { 0 };
        let d: i64 = if self.down { 1 } else { 0 };
        u - d
    }

    /// `1` if forward is held, else `0`.
    pub fn up(&self) -> (r: i64)
        ensures
            r == Self::unit(self.up),
    {
        if self.up {
            1
        } else {
            0
        }
    }

    /// `1` if backward is held, else `0`.
    pub fn down(&self) -> (r: i64)
        ensures
            r == Self::unit(self.down),
    {
        if self.down {
            1
        } else {
            0
        }
    }

    /// The part of this input that steers a guided missile: the missile
    /// always accelerates.
    pub fn missile_while_guiding(&self) -> (r: Input)
        ensures
            r == (Input { up: true, down: false, ..*self }),
    {
        let mut r = *self;
        r.up = true;
        r.down = false;
        r
    }

    /// The part of this input that still reaches the vehicle while its
    /// player guides a missile: everything but movement.
    pub fn vehicle_while_guiding(&self) -> (r: Input)
        ensures
            r == (Input { left: false, right: false, up: false, down: false, ..*self }),
    {
        let mut r = *self;
        r.left = false;
        r.right = false;
        r.up = false;
        r.down = false;
        r
    }
}

/// `String::push_str` of the standard library: appends `part` to `text`.
#[verifier::external_body]
fn push_str(text: &mut String, part: &str)
    ensures
        final(text)@ == old(text)@ + part@,
{
    text.push_str(part);
}

/// `part` if `held`, else nothing.
pub open spec fn word(held: bool, part: Seq<char>) -> Seq<char> {
    if held {
        part
    } else {
        Seq::empty()
    }
}

/// Appends `part` to `text` if `held`.
fn push_word(text: &mut String, held: bool, part: &str)
    ensures
        final(text)@ == old(text)@ + word(held, part@),
{
    if held {
        push_str(text, part);
    } else {
        assert(text@ =~= text@ + Seq::<char>::empty());
    }
}

impl Input {
    /// The text that `describe` gives: the names of the intents that
    /// are set, each followed by a space, in the order of the fields,
    /// between `Input { ` and `}`.
    pub open spec fn description(self) -> Seq<char> {
        "Input { "@ + word(self.left, "left "@) + word(self.right, "right "@) + word(
            self.up,
            "up "@,
        ) + word(self.down, "down "@) + word(self.turret_left, "turret_left "@) + word(
            self.turret_right,
            "turret_right "@,
        ) + word(self.prev_weapon, "prev_weapon "@) + word(self.next_weapon, "next_weapon "@)
            + word(self.fire, "fire "@) + word(self.mine, "mine "@) + word(
            self.self_destruct,
            "self_destruct "@,
        ) + word(self.horn, "horn "@) + word(self.chat, "chat "@) + word(self.pause, "pause "@)
            + "}"@
    }

    /// This input as a short text that names only what is set.
    pub fn describe(&self) -> (r: String)
        ensures
            r@ == self.description(),
    {
        let mut r = String::new();
        push_str(&mut r, "Input { ");
        assert(r@ =~= "Input { "@);
        push_word(&mut r, self.left, "left ");
        push_word(&mut r, self.right, "right ");
        push_word(&mut r, self.up, "up ");
        push_word(&mut r, self.down, "down ");
        push_word(&mut r, self.turret_left, "turret_left ");
        push_word(&mut r, self.turret_right, "turret_right ");
        push_word(&mut r, self.prev_weapon, "prev_weapon ");
        push_word(&mut r, self.next_weapon, "next_weapon ");
        push_word(&mut r, self.fire, "fire ");
        push_word(&mut r, self.mine, "mine ");
        push_word(&mut r, self.self_destruct, "self_destruct ");
        push_word(&mut r, self.horn, "horn ");
        push_word(&mut r, self.chat, "chat ");
        push_word(&mut r, self.pause, "pause ");
        push_str(&mut r, "}");
        r
    }
}

impl Default for Input {
    fn default() -> (r: Input)
        ensures
            r == Input::neutral(),
    {
        Input::new()
    }
}

/// The beam of a railgun shot, to be drawn for a short while.
#[derive(Clone, Copy, Debug, PartialEq, Eq, Structural)]
pub struct RailBeam {
    pub begin: Vec2,
    pub end: Vec2,
    pub start_time: i64,
}

impl RailBeam {
    pub fn new(begin: Vec2, end: Vec2, start_time: i64) -> (r: RailBeam)
        ensures
            r == (RailBeam { begin, end, start_time }),
    {
        RailBeam { begin, end, start_time }
    }
}

/// A blast to be drawn: where, how large, since when, and whether it is
/// the blast of a BFG.
#[derive(Clone, Copy, Debug, PartialEq, Eq, Structural)]
pub struct Explosion {
    pub pos: Vec2,
    pub scale: i64,
    pub start_time: i64,
    pub bfg: bool,
}

impl Explosion {
    pub fn new(pos: Vec2, scale: i64, start_time: i64, bfg: bool) -> (r: Explosion)
        ensures
            r == (Explosion { pos, scale, start_time, bfg }),
    {
        Explosion { pos, scale, start_time, bfg }
    }
}

/// Someone who plays: what they want to do in this frame.
#[derive(Clone, Copy, Debug)]
pub struct Player {
    pub input: Input,
}

#[verifier::external_type_specification]
#[verifier::external_body]
#[verifier::reject_recursive_types(T)]
pub struct ExArena<T>(Arena<T>);

/// The players that an arena holds, each as its handle's bits and its
/// input, in the order in which the arena hands them out.
pub uninterp spec fn arena_inputs(players: Arena<Player>) -> Seq<(u64, Input)>;

/// `thunderdome::Arena::new`: an arena that holds nothing.
#[verifier::external_body]
fn no_players() -> (players: Arena<Player>)
    ensures
        arena_inputs(players) == Seq::<(u64, Input)>::empty(),
{
    Arena::new()
}

/// `thunderdome::Arena::iter`, with each item turned into plain values
/// by `thunderdome::Index::to_bits` and the player's `input` field: the
/// players that the arena holds.
#[verifier::external_body]
fn player_inputs(players: &Arena<Player>) -> (r: Vec<(u64, Input)>)
    ensures
        r@ == arena_inputs(*players),
{
    players.iter().map(|(handle, player)| (handle.to_bits(), player.input)).collect()
}

/// The table that `players`, read from first to last, fills: a later
/// entry for a handle replaces an earlier one.
pub open spec fn inputs_of(players: Seq<(u64, Input)>) -> Map<u64, Input>
    decreases players.len(),
{
    if players.len() == 0 {
        Map::empty()
    } else {
        inputs_of(players.drop_last()).insert(players.last().0, players.last().1)
    }
}

/// The inputs of the connected players in the previous frame, by player
/// handle.
pub struct InputsPrev {
    table: HashMap<u64, Input>,
}

impl View for InputsPrev {
    type V = Map<u64, Input>;

    closed spec fn view(&self) -> Map<u64, Input> {
        self.table@
    }
}

impl InputsPrev {
    /// A table without any player.
    pub fn new() -> (r: InputsPrev)
        ensures
            r@ == Map::<u64, Input>::empty(),
    {
        InputsPrev { table: HashMap::new() }
    }

    /// The player's input in the previous frame, or the neutral input if
    /// the player was not connected then.
    pub fn get(&self, player_handle: u64) -> (r: Input)
        ensures
            r == if self@.dom().contains(player_handle) {
                self@[player_handle]
            } else {
                Input::neutral()
            },
    {
        broadcast use vstd::std_specs::hash::group_hash_axioms;
        match self.table.get(&player_handle) {
            Some(input) => *input,
            None => Input::new(),
        }
    }

    /// Replaces the table by the inputs of the players in the arena, each
    /// under the bits of its handle.
    pub fn snapshot(&mut self, players: &Arena<Player>)
        ensures
            final(self)@ == inputs_of(arena_inputs(*players)),
    {
        let list = player_inputs(players);
        self.fill(&list);
    }

    /// Replaces the table by the inputs of the given players.
    pub fn fill(&mut self, players: &Vec<(u64, Input)>)
        ensures
            final(self)@ == inputs_of(players@),
    {
        broadcast use vstd::std_specs::hash::group_hash_axioms;
        self.table.clear();
        let mut i: usize = 0;
        while i < players.len()
            invariant
                i <= players.len(),
                self.table@ == inputs_of(players@.take(i as int)),
            decreases players.len() - i,
        {
            let (handle, input) = players[i];
            self.table.insert(handle, input);
            proof {
                assert(players@.take(i + 1).drop_last() == players@.take(i as int));
            }
            i += 1;
        }
        proof {
            assert(players@.take(i as int) == players@);
        }
    }
}

/// The state of a match.
pub struct GameState {
    /// The source of all randomness in the game logic.
    pub rng: SmallRng,
    /// The time of this frame, in seconds.
    pub game_time: i64,
    /// The time of the previous frame.
    pub game_time_prev: i64,
    /// The time between the previous frame and this one.
    pub dt: i64,
    /// For each rail projectile, the vehicle it damaged last.
    pub rail_hits: RailHits,
    pub rail_beams: Vec<RailBeam>,
    pub bfg_beams: Vec<(Vec2, Vec2)>,
    pub explosions: Vec<Explosion>,
    pub players: Arena<Player>,
    /// The players' inputs of the previous frame.
    pub inputs_prev: InputsPrev,
    /// The input that drives the vehicles in this frame.
    pub input: Input,
    /// The weapon that is selected.
    pub cur_weapon: Weapon,
    /// The vehicle of the local player, if it has one.
    pub player_entity: Option<EntityId>,
    /// The guided missile that is being piloted, if there is one.
    pub guided_missile: Option<EntityId>,
}

impl GameState {
    /// The state at the start of a match: time zero, no events, neutral
    /// input, the machine gun selected.
    pub fn new(rng: SmallRng) -> (gs: GameState)
        ensures
            gs.rng == rng,
            gs.game_time == 0,
            gs.game_time_prev == 0,
            gs.dt == 0,
            gs.rail_hits.wf(),
            gs.rail_hits@ == Map::<EntityId, EntityId>::empty(),
            gs.rail_beams@ == Seq::<RailBeam>::empty(),
            gs.bfg_beams@ == Seq::<(Vec2, Vec2)>::empty(),
            gs.explosions@ == Seq::<Explosion>::empty(),
            arena_inputs(gs.players) == Seq::<(u64, Input)>::empty(),
            gs.inputs_prev@ == Map::<u64, Input>::empty(),
            gs.input == Input::neutral(),
            gs.cur_weapon == Weapon::Mg,
            gs.player_entity.is_none(),
            gs.guided_missile.is_none(),
    {
        GameState {
            rng,
            game_time: 0,
            game_time_prev: 0,
            dt: 0,
            rail_hits: RailHits::new(),
            rail_beams: Vec::new(),
            bfg_beams: Vec::new(),
            explosions: Vec::new(),
            players: no_players(),
            inputs_prev: InputsPrev::new(),
            input: Input::new(),
            cur_weapon: Weapon::Mg,
            player_entity: None,
            guided_missile: None,
        }
    }

    /// Whether `self` and `other` agree on everything but the events
    /// of the frame, the piloted missile and the random number generator.
    pub open spec fn same_frame(&self, other: &GameState) -> bool {
        &&& self.game_time == other.game_time
        &&& self.game_time_prev == other.game_time_prev
        &&& self.dt == other.dt
        &&& self.rail_hits == other.rail_hits
        &&& self.players == other.players
        &&& self.inputs_prev == other.inputs_prev
        &&& self.input == other.input
        &&& self.cur_weapon == other.cur_weapon
        &&& self.player_entity == other.player_entity
    }

    /// The step that a request for `dt` seconds makes: a negative request
    /// counts as a pause.
    pub open spec fn step(dt: i64) -> i64 {
        if dt < 0 {
            0
        } else {
            dt
        }
    }

    /// Remembers the inputs of the players for the next frame.
    pub fn snapshot_inputs(&mut self)
        ensures
            final(self).inputs_prev@ == inputs_of(arena_inputs(old(self).players)),
            final(self).game_time == old(self).game_time,
            final(self).game_time_prev == old(self).game_time_prev,
            final(self).dt == old(self).dt,
            final(self).rail_hits == old(self).rail_hits,
            final(self).players == old(self).players,
            final(self).input == old(self).input,
            final(self).cur_weapon == old(self).cur_weapon,
            final(self).player_entity == old(self).player_entity,
            final(self).rng == old(self).rng,
            final(self).rail_beams == old(self).rail_beams,
            final(self).bfg_beams == old(self).bfg_beams,
            final(self).explosions == old(self).explosions,
            final(self).guided_missile == old(self).guided_missile,
    {
        self.inputs_prev.snapshot(&self.players);
    }

    /// Moves the clock forward by `dt`. Time never runs backward.
    pub fn advance(&mut self, dt: i64)
        ensures
            final(self).game_time_prev == old(self).game_time,
            final(self).game_time == saturate(old(self).game_time + Self::step(dt)),
            final(self).game_time >= old(self).game_time,
            final(self).dt == Self::step(dt),
            final(self).rng == old(self).rng,
            final(self).rail_hits == old(self).rail_hits,
            final(self).rail_beams == old(self).rail_beams,
            final(self).bfg_beams == old(self).bfg_beams,
            final(self).explosions == old(self).explosions,
            final(self).players == old(self).players,
            final(self).inputs_prev == old(self).inputs_prev,
            final(self).input == old(self).input,
            final(self).cur_weapon == old(self).cur_weapon,
            final(self).player_entity == old(self).player_entity,
            final(self).guided_missile == old(self).guided_missile,
    {
        let step = if dt < 0 { 0 } else { dt };
        self.game_time_prev = self.game_time;
        self.game_time = plus(self.game_time, step);
        self.dt = step;
    }
}

/// For each rail projectile the vehicle that it damaged last, so that a
/// beam which ends inside a vehicle does not damage it again when its
/// next segment starts there. Only the last vehicle is remembered.
pub struct RailHits {
    pairs: Vec<(EntityId, EntityId)>,
}

impl RailHits {
    /// No projectile occurs twice.
    pub closed spec fn wf(&self) -> bool {
        forall|i: int, j: int|
            0 <= i < j < self.pairs@.len() ==> self.pairs@[i].0 != self.pairs@[j].0
    }

    pub closed spec fn view(&self) -> Map<EntityId, EntityId> {
        Map::new(
            |p: EntityId| exists|i: int| 0 <= i < self.pairs@.len() && self.pairs@[i].0 == p,
            |p: EntityId|
                self.pairs@[choose|i: int| 0 <= i < self.pairs@.len() && self.pairs@[i].0 == p].1,
        )
    }

    pub fn new() -> (r: RailHits)
        ensures
            r.wf(),
            r@ == Map::<EntityId, EntityId>::empty(),
    {
        let r = RailHits { pairs: Vec::new() };
        assert(r@ =~= Map::<EntityId, EntityId>::empty());
        r
    }

    /// Whether `projectile` may damage `vehicle` now: not if that vehicle
    /// is the one it damaged last.
    pub fn may_hit(&self, projectile: EntityId, vehicle: EntityId) -> (b: bool)
        requires
            self.wf(),
        ensures
            b == !(self@.dom().contains(projectile) && self@[projectile] == vehicle),
    {
        let mut i: usize = 0;
        while i < self.pairs.len()
            invariant
                i <= self.pairs.len(),
                self.wf(),
                forall|k: int| 0 <= k < i ==> self.pairs@[k].0 != projectile,
            decreases self.pairs.len() - i,
        {
            if self.pairs[i].0 == projectile {
                return !(self.pairs[i].1 == vehicle);
            }
            i += 1;
        }
        true
    }

    /// Records that `projectile` has damaged `vehicle`.
    pub fn record(&mut self, projectile: EntityId, vehicle: EntityId)
        requires
            old(self).wf(),
        ensures
            final(self).wf(),
            final(self)@ == old(self)@.insert(projectile, vehicle),
    {
        let mut i: usize = 0;
        while i < self.pairs.len()
            invariant
                i <= self.pairs.len(),
                self.wf(),
                *self == *old(self),
                forall|k: int| 0 <= k < i ==> self.pairs@[k].0 != projectile,
            decreases self.pairs.len() - i,
        {
            if self.pairs[i].0 == projectile {
                self.pairs[i] = (projectile, vehicle);
                proof {
                    let a = old(self).pairs@;
                    let b = self.pairs@;
                    assert(forall|k: int| 0 <= k < b.len() ==> b[k].0 == a[k].0);
                    assert forall|p: EntityId| #[trigger] self@.dom().contains(p) == old(self)@.insert(projectile, vehicle).dom().contains(p) by {
                        if old(self)@.dom().contains(p) {
                            let k = choose|k: int| 0 <= k < a.len() && a[k].0 == p;
                            assert(b[k].0 == p);
                        }
                        if p == projectile {
                            assert(b[i as int].0 == p);
                        }
                    }
                    assert forall|p: EntityId| self@.dom().contains(p) implies #[trigger] self@[p] == old(self)@.insert(projectile, vehicle)[p] by {
                        let k = choose|k: int| 0 <= k < b.len() && b[k].0 == p;
                        if p != projectile {
                            let k2 = choose|k: int| 0 <= k < a.len() && a[k].0 == p;
                            assert(a[k].0 == p);
                            assert(k == k2);
                        } else {
                            assert(k == i);
                        }
                    }
                    assert(self@ =~= old(self)@.insert(projectile, vehicle));
                }
                return;
            }
            i += 1;
        }
        self.pairs.push((projectile, vehicle));
        proof {
            let a = old(self).pairs@;
            let b = self.pairs@;
            assert(forall|k: int| 0 <= k < a.len() ==> b[k] == a[k]);
            assert(b[a.len() as int] == (projectile, vehicle));
            assert forall|p: EntityId| #[trigger] self@.dom().contains(p) == old(self)@.insert(projectile, vehicle).dom().contains(p) by {
                if old(self)@.dom().contains(p) {
                    let k = choose|k: int| 0 <= k < a.len() && a[k].0 == p;
                    assert(b[k].0 == p);
                }
                if p == projectile {
                    assert(b[a.len() as int].0 == p);
                }
            }
            assert forall|p: EntityId| self@.dom().contains(p) implies #[trigger] self@[p] == old(self)@.insert(projectile, vehicle)[p] by {
                let k = choose|k: int| 0 <= k < b.len() && b[k].0 == p;
                if p != projectile {
                    let k2 = choose|k: int| 0 <= k < a.len() && a[k].0 == p;
                    assert(b[k2].0 == p);
                    assert(k == k2);
                } else {
                    assert(k == a.len());
                }
            }
            assert(self@ =~= old(self)@.insert(projectile, vehicle));
        }
    }
}

#[verifier::external_type_specification]
#[verifier::external_body]
pub struct ExSmallRng(SmallRng);

} // verus!

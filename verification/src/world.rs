//! The smallest playable world: one missile that the player pushes
//! around a map, and the blasts it has left behind.

use vstd::prelude::*;
use crate::fixed::{clamp_between, clamped, minus, plus, saturate, scaled_product, times, Vec2, SCALE};

verus! {

/// The side of a map tile.
pub const TILE_SIZE: i64 = 64_000_000;

/// How much a held key changes the velocity in one call of `input`.
pub const PUSH: i64 = 10_000;

/// The number of frames that a blast is shown.
pub const BLAST_FRAMES: i32 = 26;

/// The world of the single missile.
pub struct World {
    /// The far corner of the map; the near one is the origin.
    pub map_size: Vec2,
    /// The time of the last update.
    pub prev_update: i64,
    pub pos: Vec2,
    pub vel: Vec2,
    /// Where each blast is, and the number of the frame it shows.
    pub explosions: Vec<(Vec2, i32)>,
    pub debug_texts: Vec<String>,
}

/// A coordinate and its velocity once the coordinate has been brought
/// back into `[0, size]`: at either edge the velocity is lost. The near
/// edge is looked at first.
pub open spec fn confined(pos: i64, vel: i64, size: i64) -> (i64, i64) {
    let near = if pos <= 0 {
        (0i64, 0i64)
    } else {
        (pos, vel)
    };
    if near.0 >= size {
        (size, 0i64)
    } else {
        near
    }
}

/// A coordinate and its velocity, brought back into the map.
pub fn confine(pos: i64, vel: i64, size: i64) -> (r: (i64, i64))
    ensures
        r == confined(pos, vel, size),
{
    let (mut p, mut v) = (pos, vel);
    if p <= 0 {
        p = 0;
        v = 0;
    }
    if p >= size {
        p = size;
        v = 0;
    }
    (p, v)
}

/// The number of the tile row or column that holds the coordinate `x`;
/// what lies before the map counts to the first one.
pub open spec fn tile_of(x: i64) -> int {
    if x < 0 {
        0
    } else {
        x / TILE_SIZE
    }
}

/// A blast one frame later.
pub open spec fn aged(blast: (Vec2, i32)) -> (Vec2, i32) {
    (
        blast.0,
        if blast.1 < i32::MAX {
            (blast.1 + 1) as i32
        } else {
            blast.1
        },
    )
}

/// The blasts one frame later, without those that have been shown to
/// their end; the others keep their order.
pub open spec fn blasts_after_frame(blasts: Seq<(Vec2, i32)>) -> Seq<(Vec2, i32)>
    decreases blasts.len(),
{
    if blasts.len() == 0 {
        Seq::empty()
    } else if aged(blasts.last()).1 < BLAST_FRAMES {
        blasts_after_frame(blasts.drop_last()).push(aged(blasts.last()))
    } else {
        blasts_after_frame(blasts.drop_last())
    }
}

/// Where along one axis the view begins, for a camera that follows
/// `pos` but shows nothing outside a map of size `map`: the camera stays
/// half a canvas away from both edges.
pub open spec fn view_start(pos: i64, canvas: i64, map: i64) -> i64 {
    saturate(clamp_between(pos as int, (canvas / 2) as int, saturate(map - canvas / 2) as int) - canvas / 2)
}

/// How far the view begins behind the edge of a tile: nothing for a
/// view that begins before the map; rounded down to whole units if the
/// tiles are to be aligned to pixels.
pub open spec fn tile_offset(start: i64, align: bool) -> int {
    let offset: int = if start < 0 {
        0
    } else {
        (start % TILE_SIZE) as int
    };
    if align {
        offset - offset % (SCALE as int)
    } else {
        offset
    }
}

/// How many tiles it takes to cover `canvas` from `offset` behind the
/// edge of the first one.
pub open spec fn tiles_across(offset: int, canvas: i64) -> int {
    if canvas + offset <= 0 {
        0
    } else {
        (canvas + offset - 1) / (TILE_SIZE as int) + 1
    }
}

/// The part of the sheet of blast pictures that shows frame `frame`:
/// every picture is 100 units wide and stays for two frames.
pub open spec fn sprite_start(frame: i32) -> int {
    if frame < 0 {
        0
    } else {
        (frame / 2) * 100 * SCALE
    }
}

impl World {
    /// Where the view begins, for a canvas of the given size. The map
    /// must be at least as large as the canvas.
    pub fn top_left(&self, canvas_size: Vec2) -> (r: Vec2)
        requires
            canvas_size.x / 2 <= saturate(self.map_size.x - canvas_size.x / 2),
            canvas_size.y / 2 <= saturate(self.map_size.y - canvas_size.y / 2),
        ensures
            r.x == view_start(self.pos.x, canvas_size.x, self.map_size.x),
            r.y == view_start(self.pos.y, canvas_size.y, self.map_size.y),
    {
        let min_x = Self::half(canvas_size.x);
        let min_y = Self::half(canvas_size.y);
        let x = clamped(self.pos.x, min_x, minus(self.map_size.x, min_x));
        let y = clamped(self.pos.y, min_y, minus(self.map_size.y, min_y));
        Vec2 { x: minus(x, min_x), y: minus(y, min_y) }
    }

    /// Half of a length, rounded down.
    fn half(x: i64) -> (r: i64)
        ensures
            r == x / 2,
    {
        if x >= 0 {
            x / 2
        } else {
            let m: i128 = -(x as i128);
            (-((m + 1) / 2)) as i64
        }
    }

    /// The tiles that cover the canvas along one axis, for a view that
    /// begins at `start`: the number of each tile's column or row, and
    /// where on the canvas it begins. The first tile is the one that
    /// holds `start`; each next one begins a tile's side further on.
    pub fn tile_line(start: i64, canvas: i64, align: bool) -> (r: Vec<(u64, i64)>)
        ensures
            r@.len() == tiles_across(tile_offset(start, align), canvas),
            forall|k: int|
                0 <= k < r@.len() ==> (#[trigger] r@[k]) == ((tile_of(start) + k) as u64, (k
                    * TILE_SIZE - tile_offset(start, align)) as i64),
    {
        let first: u64 = if start < 0 {
            0
        } else {
            (start / TILE_SIZE) as u64
        };
        let raw: i64 = if start < 0 {
            0
        } else {
            start % TILE_SIZE
        };
        let offset: i64 = if align {
            raw - raw % SCALE
        } else {
            raw
        };
        let mut r: Vec<(u64, i64)> = Vec::new();
        let mut k: u64 = 0;
        let mut x: i128 = -(offset as i128);
        while x < canvas as i128
            invariant
                0 <= offset < TILE_SIZE,
                offset == tile_offset(start, align),
                first == tile_of(start),
                first <= 144_115_188_075,
                x == k * 64_000_000 - offset,
                k == 0 || x < canvas + 64_000_000,
                k <= 0x0fff_ffff_ffff,
                r@.len() == k,
                k == 0 || (k - 1) * 64_000_000 - offset < canvas,
                forall|j: int|
                    0 <= j < r@.len() ==> (#[trigger] r@[j]) == ((first + j) as u64, (j * TILE_SIZE
                        - offset) as i64),
            decreases canvas + 64_000_000 - x,
        {
            r.push((first + k, x as i64));
            k += 1;
            x += TILE_SIZE as i128;
        }
        r
    }

    /// The part of the sheet of blast pictures that shows `frame`.
    pub fn sprite_offset(frame: i32) -> (r: i64)
        ensures
            r == sprite_start(frame),
    {
        if frame < 0 {
            0
        } else {
            ((frame / 2) as i64) * 100 * SCALE
        }
    }

    /// A world with the missile at its starting place, drifting slowly.
    pub fn new(map_size: Vec2) -> (w: World)
        ensures
            w.map_size == map_size,
            w.prev_update == 0,
            w.pos == (Vec2 { x: 640_000_000, y: 640_000_000 }),
            w.vel == (Vec2 { x: 20_000, y: 10_000 }),
            w.explosions@.len() == 0,
            w.debug_texts@.len() == 0,
    {
        World {
            map_size,
            prev_update: 0,
            pos: Vec2 { x: 640_000_000, y: 640_000_000 },
            vel: Vec2 { x: 20_000, y: 10_000 },
            explosions: Vec::new(),
            debug_texts: Vec::new(),
        }
    }

    /// The velocity after the keys have pushed it: each of the four
    /// arguments says how far its key is held, from zero to one.
    pub open spec fn pushed(vel: Vec2, left: i64, right: i64, up: i64, down: i64) -> Vec2 {
        Vec2 {
            x: saturate(
                saturate(vel.x - saturate(scaled_product(left as int, PUSH as int))) + saturate(
                    scaled_product(right as int, PUSH as int),
                ),
            ),
            y: saturate(
                saturate(vel.y - saturate(scaled_product(up as int, PUSH as int))) + saturate(
                    scaled_product(down as int, PUSH as int),
                ),
            ),
        }
    }

    /// Lets the keys push the missile.
    pub fn input(&mut self, left: i64, right: i64, up: i64, down: i64)
        ensures
            final(self).vel == Self::pushed(old(self).vel, left, right, up, down),
            final(self).pos == old(self).pos,
            final(self).map_size == old(self).map_size,
            final(self).prev_update == old(self).prev_update,
            final(self).explosions == old(self).explosions,
            final(self).debug_texts == old(self).debug_texts,
    {
        self.vel.x = plus(minus(self.vel.x, times(left, PUSH)), times(right, PUSH));
        self.vel.y = plus(minus(self.vel.y, times(up, PUSH)), times(down, PUSH));
    }

    /// Where the missile would be at time `t` if the map had no edges.
    pub open spec fn drifted(&self, t: i64) -> Vec2 {
        self.pos.spec_plus(self.vel.spec_scaled(saturate(t - self.prev_update)))
    }

    /// Moves the missile to where it is at time `t`. It stops at the
    /// edges of the map, and loses the velocity that took it there.
    pub fn update_pre(&mut self, t: i64)
        ensures
            final(self).pos.x == confined(
                old(self).drifted(t).x,
                old(self).vel.x,
                old(self).map_size.x,
            ).0,
            final(self).vel.x == confined(
                old(self).drifted(t).x,
                old(self).vel.x,
                old(self).map_size.x,
            ).1,
            final(self).pos.y == confined(
                old(self).drifted(t).y,
                old(self).vel.y,
                old(self).map_size.y,
            ).0,
            final(self).vel.y == confined(
                old(self).drifted(t).y,
                old(self).vel.y,
                old(self).map_size.y,
            ).1,
            final(self).prev_update == t,
            final(self).map_size == old(self).map_size,
            final(self).explosions == old(self).explosions,
            final(self).debug_texts == old(self).debug_texts,
    {
        let dt = minus(t, self.prev_update);
        let drifted = self.pos.plus(self.vel.scaled(dt));
        let (x, vx) = confine(drifted.x, self.vel.x, self.map_size.x);
        let (y, vy) = confine(drifted.y, self.vel.y, self.map_size.y);
        self.pos = Vec2 { x, y };
        self.vel = Vec2 { x: vx, y: vy };
        self.prev_update = t;
    }

    /// The column and the row of the tile that holds `pos`.
    pub fn to_tile_pos(pos: Vec2) -> (r: (u64, u64))
        ensures
            r.0 == tile_of(pos.x),
            r.1 == tile_of(pos.y),
    {
        let c = if pos.x < 0 {
            0
        } else {
            (pos.x / TILE_SIZE) as u64
        };
        let r = if pos.y < 0 {
            0
        } else {
            (pos.y / TILE_SIZE) as u64
        };
        (c, r)
    }

    /// Ends a frame: every blast shows its next frame, and those that
    /// have been shown to their end are dropped.
    pub fn update_post(&mut self)
        ensures
            final(self).explosions@ == blasts_after_frame(old(self).explosions@),
            final(self).pos == old(self).pos,
            final(self).vel == old(self).vel,
            final(self).map_size == old(self).map_size,
            final(self).prev_update == old(self).prev_update,
            final(self).debug_texts == old(self).debug_texts,
    {
        let mut kept: Vec<(Vec2, i32)> = Vec::new();
        let mut i: usize = 0;
        proof {
            assert(self.explosions@.take(0) =~= Seq::<(Vec2, i32)>::empty());
        }
        while i < self.explosions.len()
            invariant
                i <= self.explosions@.len(),
                *self == *old(self),
                kept@ == blasts_after_frame(self.explosions@.take(i as int)),
            decreases self.explosions@.len() - i,
        {
            proof {
                assert(self.explosions@.take(i + 1).drop_last() =~= self.explosions@.take(i as int));
            }
            let (pos, frame) = self.explosions[i];
            let next = if frame < i32::MAX {
                frame + 1
            } else {
                frame
            };
            if next < BLAST_FRAMES {
                kept.push((pos, next));
            }
            i += 1;
        }
        proof {
            assert(self.explosions@.take(i as int) =~= self.explosions@);
        }
        self.explosions = kept;
    }

    /// Adds a line of text to be shown in the next frame.
    pub fn debug_text(&mut self, s: String)
        ensures
            final(self).debug_texts@ == old(self).debug_texts@.push(s),
            final(self).pos == old(self).pos,
            final(self).vel == old(self).vel,
            final(self).map_size == old(self).map_size,
            final(self).prev_update == old(self).prev_update,
            final(self).explosions == old(self).explosions,
    {
        self.debug_texts.push(s);
    }
}

} // verus!

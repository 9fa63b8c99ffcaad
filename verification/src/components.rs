//! Plain data attached to entities.

use vstd::prelude::*;
use crate::fixed::{Rotation, Vec2};

verus! {

/// How many weapon kinds there are; every vehicle has one ammo slot per kind.
pub const WEAPS_CNT: usize = 7;

/// The kind of a weapon, and of the projectiles it fires.
#[derive(Clone, Copy, Debug, PartialEq, Eq, Structural)]
pub enum Weapon {
    Mg,
    Rail,
    Cb,
    Rockets,
    Hm,
    Gm,
    Bfg,
}

impl Weapon {
    /// The position of this weapon in the fixed order of weapon kinds.
    pub open spec fn ordinal(self) -> int {
        match self {
            Weapon::Mg => 0,
            Weapon::Rail => 1,
            Weapon::Cb => 2,
            Weapon::Rockets => 3,
            Weapon::Hm => 4,
            Weapon::Gm => 5,
            Weapon::Bfg => 6,
        }
    }

    /// The ammo slot that belongs to this weapon.
    pub fn index(self) -> (i: usize)
        ensures
            i == self.ordinal(),
            i < WEAPS_CNT,
    {
        match self {
            Weapon::Mg => 0,
            Weapon::Rail => 1,
            Weapon::Cb => 2,
            Weapon::Rockets => 3,
            Weapon::Hm => 4,
            Weapon::Gm => 5,
            Weapon::Bfg => 6,
        }
    }

    /// The weapon with the given ordinal, if there is one.
    pub fn n(i: usize) -> (w: Option<Weapon>)
        ensures
            i < WEAPS_CNT ==> w.is_some() && w.unwrap().ordinal() == i,
            i >= WEAPS_CNT ==> w.is_none(),
    {
        match i {
            0 => Some(Weapon::Mg),
            1 => Some(Weapon::Rail),
            2 => Some(Weapon::Cb),
            3 => Some(Weapon::Rockets),
            4 => Some(Weapon::Hm),
            5 => Some(Weapon::Gm),
            6 => Some(Weapon::Bfg),
            _ => None,
        }
    }
}

/// The kind of a vehicle.
#[derive(Clone, Copy, Debug, PartialEq, Eq, Structural)]
pub enum VehicleType {
    Tank,
    Hovercraft,
    Hummer,
}

impl VehicleType {
    /// The position of this kind in the fixed order of vehicle kinds.
    pub open spec fn ordinal(self) -> int {
        match self {
            VehicleType::Tank => 0,
            VehicleType::Hovercraft => 1,
            VehicleType::Hummer => 2,
        }
    }

    /// The vehicle kind with the given ordinal, if there is one.
    pub fn n(i: i64) -> (v: Option<VehicleType>)
        ensures
            0 <= i < 3 ==> v.is_some() && v.unwrap().ordinal() == i,
            !(0 <= i < 3) ==> v.is_none(),
    {
        match i {
            0 => Some(VehicleType::Tank),
            1 => Some(VehicleType::Hovercraft),
            2 => Some(VehicleType::Hummer),
            _ => None,
        }
    }
}

/// An axis-aligned box in the vehicle's own frame.
#[derive(Clone, Copy, Debug, PartialEq, Eq, Structural)]
pub struct Hitbox {
    pub mins: Vec2,
    pub maxs: Vec2,
}

impl Hitbox {
    /// The corners of the box in the world, for a vehicle at `pos` that
    /// is turned by `turn`: back left, front left, front right, back
    /// right.
    pub open spec fn spec_corners(self, pos: Vec2, turn: Rotation) -> Seq<Vec2> {
        seq![
            pos.spec_plus(Vec2 { x: self.mins.x, y: self.mins.y }.spec_rotated(turn)),
            pos.spec_plus(Vec2 { x: self.maxs.x, y: self.mins.y }.spec_rotated(turn)),
            pos.spec_plus(Vec2 { x: self.maxs.x, y: self.maxs.y }.spec_rotated(turn)),
            pos.spec_plus(Vec2 { x: self.mins.x, y: self.maxs.y }.spec_rotated(turn)),
        ]
    }

    /// The corners of the box in the world.
    pub fn corners(self, pos: Vec2, turn: Rotation) -> (r: [Vec2; 4])
        ensures
            r@ == self.spec_corners(pos, turn),
    {
        let r = [
            pos.plus(Vec2 { x: self.mins.x, y: self.mins.y }.rotated(turn)),
            pos.plus(Vec2 { x: self.maxs.x, y: self.mins.y }.rotated(turn)),
            pos.plus(Vec2 { x: self.maxs.x, y: self.maxs.y }.rotated(turn)),
            pos.plus(Vec2 { x: self.mins.x, y: self.maxs.y }.rotated(turn)),
        ];
        assert(r@ =~= self.spec_corners(pos, turn));
        r
    }
}

/// Names an entity: a slot of the store and the generation of its occupant.
/// An id whose generation differs from the slot's names nothing.
#[derive(Clone, Copy, Debug, PartialEq, Eq, Structural)]
pub struct EntityId {
    pub slot: usize,
    pub generation: u32,
}

} // verus!

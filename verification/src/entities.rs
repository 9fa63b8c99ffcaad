//! Vehicles and the state of their weapons.

use vstd::prelude::*;
use crate::components::{VehicleType, Weapon, WEAPS_CNT};
use crate::cvars::Cvars;
use crate::fixed::{
    bounce, bounced, clamp_between, clamped, directed, limit_magnitude, limited, minus, plus,
    saturate, saturated, scaled_product, times, toward, Rotation, Vec2,
};
use crate::game_state::Input;

verus! {

/// The state of one weapon slot of a vehicle.
#[derive(Clone, Copy, Debug, PartialEq, Eq, Structural)]
pub enum Ammo {
    /// The time from which the next shot may be fired, and the shots left.
    Loaded(i64, u32),
    /// The time at which reloading began, and the time at which it ends.
    Reloading(i64, i64),
}

impl Ammo {
    /// Whether a shot can be fired at time `now`: the slot is loaded, the
    /// refire delay has passed and a shot is left.
    pub open spec fn ready(self, now: i64) -> bool {
        match self {
            Ammo::Loaded(ready_at, count) => now >= ready_at && count >= 1,
            Ammo::Reloading(_, _) => false,
        }
    }

    /// The slot after a shot at time `now`, for a slot that is ready: the
    /// last shot starts the reload, any other one the refire delay.
    pub open spec fn after_shot(self, now: i64, refire: i64, reload_time: i64) -> Ammo {
        match self {
            Ammo::Loaded(_, count) => if count == 1 {
                Ammo::Reloading(now, saturate(now + reload_time))
            } else {
                Ammo::Loaded(saturate(now + refire), (count - 1) as u32)
            },
            Ammo::Reloading(_, _) => self,
        }
    }

    /// Whether a reload is under way whose end has come at time `now`.
    pub open spec fn reload_due(self, now: i64) -> bool {
        match self {
            Ammo::Reloading(_, end) => now >= end,
            Ammo::Loaded(_, _) => false,
        }
    }

    /// The slot after the reload check at time `now`: a reload that has
    /// reached its end gives a full magazine, ready at once.
    pub open spec fn after_reload(self, now: i64, full: u32) -> Ammo {
        match self {
            Ammo::Reloading(_, end) => if now >= end {
                Ammo::Loaded(now, full)
            } else {
                self
            },
            Ammo::Loaded(_, _) => self,
        }
    }

    /// Fires one shot at time `now` if the slot is ready, and says whether
    /// it did.
    pub fn shoot(&mut self, now: i64, refire: i64, reload_time: i64) -> (fired: bool)
        ensures
            fired == old(self).ready(now),
            *final(self) == if fired {
                old(self).after_shot(now, refire, reload_time)
            } else {
                *old(self)
            },
    {
        match *self {
            Ammo::Loaded(ready_at, count) => {
                if now < ready_at || count == 0 {
                    return false;
                }
                if count == 1 {
                    *self = Ammo::Reloading(now, plus(now, reload_time));
                } else {
                    *self = Ammo::Loaded(plus(now, refire), count - 1);
                }
                true
            },
            Ammo::Reloading(_, _) => false,
        }
    }

    /// Ends a reload whose time has come, and says whether it did.
    pub fn reload(&mut self, now: i64, full: u32) -> (reloaded: bool)
        ensures
            reloaded == old(self).reload_due(now),
            *final(self) == old(self).after_reload(now, full),
    {
        match *self {
            Ammo::Reloading(_, end) => {
                if now >= end {
                    *self = Ammo::Loaded(now, full);
                    true
                } else {
                    false
                }
            },
            Ammo::Loaded(_, _) => false,
        }
    }
}

/// A vehicle: its kind, whether it is a wreck, where its turret points,
/// the fraction of its hit points that is left, and one ammo slot per
/// weapon kind, in the order of the weapons.
#[derive(Clone, Copy, Debug, PartialEq, Eq)]
pub struct Vehicle {
    pub veh_type: VehicleType,
    pub destroyed: bool,
    pub turret_angle: i64,
    pub hp: i64,
    pub ammos: [Ammo; WEAPS_CNT],
}

impl Vehicle {
    /// A new vehicle: intact, its turret straight ahead, every weapon with
    /// a full magazine that is ready from time zero.
    pub open spec fn fresh(cvars: &Cvars, veh_type: VehicleType, v: Vehicle) -> bool {
        &&& v.veh_type == veh_type
        &&& !v.destroyed
        &&& v.turret_angle == 0
        &&& v.hp == crate::fixed::SCALE
        &&& forall|w: Weapon| #[trigger]
            v.ammos@[w.ordinal()] == Ammo::Loaded(0, cvars.weapon_reload_ammo(w))
    }

    pub fn new(cvars: &Cvars, veh_type: VehicleType) -> (v: Vehicle)
        ensures
            Self::fresh(cvars, veh_type, v),
    {
        let ammos = [
            Ammo::Loaded(0, cvars.g_weapon_reload_ammo(Weapon::Mg)),
            Ammo::Loaded(0, cvars.g_weapon_reload_ammo(Weapon::Rail)),
            Ammo::Loaded(0, cvars.g_weapon_reload_ammo(Weapon::Cb)),
            Ammo::Loaded(0, cvars.g_weapon_reload_ammo(Weapon::Rockets)),
            Ammo::Loaded(0, cvars.g_weapon_reload_ammo(Weapon::Hm)),
            Ammo::Loaded(0, cvars.g_weapon_reload_ammo(Weapon::Gm)),
            Ammo::Loaded(0, cvars.g_weapon_reload_ammo(Weapon::Bfg)),
        ];
        Vehicle { veh_type, destroyed: false, turret_angle: 0, hp: crate::fixed::SCALE, ammos }
    }

    /// The angle by which steering turns the velocity of a vehicle with
    /// the given turn rate.
    pub fn steering_angle(cvars: &Cvars, turn_rate: i64) -> (r: i64)
        ensures
            r == saturate(scaled_product(turn_rate as int, cvars.g_tank_turn_effectiveness as int)),
    {
        times(turn_rate, cvars.g_tank_turn_effectiveness)
    }

    /// The angle and the position that a vehicle wants to have after a
    /// frame of `dt` seconds, once steering has turned its velocity by
    /// `steering`. The caller asks the map whether the hitbox fits there
    /// before `tick` runs.
    pub fn plan(dt: i64, pos: Vec2, vel: Vec2, angle: i64, turn_rate: i64, steering: Rotation) -> (r:
        (i64, Vec2))
        ensures
            r.0 == saturate(angle + turn_rate),
            r.1 == pos.spec_plus(vel.spec_rotated(steering).spec_scaled(dt)),
    {
        (plus(angle, turn_rate), pos.plus(vel.rotated(steering).scaled(dt)))
    }

    /// One frame of turning and moving against the map.
    ///
    /// Steering turns the velocity by `steering`. Then the vehicle turns
    /// by its turn rate, unless the map blocks the hitbox at the new
    /// angle (`turn_blocked`): then the angle stays, and the turn rate
    /// is reversed and halved. Then the vehicle moves by its velocity,
    /// unless the map blocks the hitbox at the new position
    /// (`move_blocked`): then the position stays, and the velocity is
    /// reversed and halved. Neither outcome affects the other.
    pub fn tick(
        &self,
        dt: i64,
        pos: &mut Vec2,
        vel: &mut Vec2,
        angle: &mut i64,
        turn_rate: &mut i64,
        steering: Rotation,
        turn_blocked: bool,
        move_blocked: bool,
    )
        ensures
            *final(angle) == if turn_blocked {
                *old(angle)
            } else {
                saturate(*old(angle) + *old(turn_rate))
            },
            *final(turn_rate) == if turn_blocked {
                bounce(*old(turn_rate) as int) as i64
            } else {
                *old(turn_rate)
            },
            *final(pos) == if move_blocked {
                *old(pos)
            } else {
                old(pos).spec_plus(old(vel).spec_rotated(steering).spec_scaled(dt))
            },
            *final(vel) == if move_blocked {
                old(vel).spec_rotated(steering).spec_bounced()
            } else {
                old(vel).spec_rotated(steering)
            },
    {
        *vel = vel.rotated(steering);
        if turn_blocked {
            *turn_rate = bounced(*turn_rate);
        } else {
            *angle = plus(*angle, *turn_rate);
        }
        if move_blocked {
            *vel = vel.bounced();
        } else {
            *pos = pos.plus(vel.scaled(dt));
        }
    }

    /// This vehicle with the slot of `weapon` replaced.
    pub open spec fn with_ammo(self, weapon: Weapon, ammo: Ammo) -> Vehicle {
        Vehicle { ammos: vstd::array::spec_array_update(self.ammos, weapon.ordinal(), ammo), ..self }
    }

    /// The slot of `weapon`.
    pub open spec fn ammo(self, weapon: Weapon) -> Ammo {
        self.ammos@[weapon.ordinal()]
    }

    pub fn get_ammo(&self, weapon: Weapon) -> (a: Ammo)
        ensures
            a == self.ammo(weapon),
    {
        self.ammos[weapon.index()]
    }

    pub fn set_ammo(&mut self, weapon: Weapon, ammo: Ammo)
        ensures
            *final(self) == old(self).with_ammo(weapon, ammo),
    {
        let i = weapon.index();
        self.ammos[i] = ammo;
    }
}

/// A missile that a player steers.
#[derive(Clone, Copy, Debug, PartialEq, Eq, Structural)]
pub struct GuidedMissile {
    pub pos: Vec2,
    pub vel: Vec2,
    pub turn_rate: i64,
}

/// The magnitude of the difference of two scalars.
pub open spec fn distance(a: i64, b: i64) -> i64 {
    if a >= b {
        saturate(a - b)
    } else {
        saturate(b - a)
    }
}

/// The smaller of two scalars.
pub open spec fn smaller(a: i64, b: i64) -> i64 {
    if a <= b {
        a
    } else {
        b
    }
}

impl GuidedMissile {
    /// A missile that leaves `pos` at its initial speed in the direction
    /// that `turn` gives to the x axis, flying straight.
    pub fn spawn(cvars: &Cvars, pos: Vec2, turn: Rotation) -> (m: GuidedMissile)
        ensures
            m == (GuidedMissile {
                pos,
                vel: Vec2 { x: cvars.g_guided_missile_speed_initial, y: 0 }.spec_rotated(turn),
                turn_rate: 0,
            }),
    {
        GuidedMissile {
            pos,
            vel: Vec2 { x: cvars.g_guided_missile_speed_initial, y: 0 }.rotated(turn),
            turn_rate: 0,
        }
    }

    /// The velocity after the throttle: the speed changes by the input
    /// and stays between the least and the greatest speed; the direction
    /// stays.
    pub open spec fn throttled(cvars: &Cvars, vel: Vec2, axis: int, dt: i64) -> Vec2 {
        let change = saturate(
            toward(
                axis,
                saturate(scaled_product(cvars.g_guided_missile_speed_change as int, dt as int)) as int,
            ),
        );
        let speed = clamp_between(
            saturate(saturate(vel.spec_magnitude()) + change) as int,
            cvars.g_guided_missile_speed_min as int,
            cvars.g_guided_missile_speed_max as int,
        ) as i64;
        vel.spec_normalized().spec_scaled(speed)
    }

    /// The turn rate after steering. With steering input, the input
    /// pushes the rate, which the greatest turn rate caps. Without, the
    /// rate falls toward zero, without crossing: by what the decay takes
    /// plus a constant share, but by no more than steering against it
    /// would take.
    pub open spec fn turned(cvars: &Cvars, turn_rate: i64, axis: int, dt: i64, decay: i64) -> i64 {
        let push = saturate(
            toward(
                axis,
                saturate(
                    scaled_product(cvars.g_guided_missile_turn_rate_increase as int, dt as int),
                ) as int,
            ),
        );
        if push == 0 {
            let after_decay = saturate(scaled_product(turn_rate as int, decay as int));
            let linear = distance(turn_rate, after_decay);
            let constant = saturate(
                scaled_product(cvars.g_guided_missile_turn_rate_decrease as int, dt as int),
            );
            let max_change = saturate(
                scaled_product(cvars.g_guided_missile_turn_rate_increase as int, dt as int),
            );
            let decrease = smaller(saturate(linear + constant), max_change);
            if turn_rate > 0 {
                if saturate(turn_rate - decrease) < 0 {
                    0
                } else {
                    saturate(turn_rate - decrease)
                }
            } else {
                if saturate(turn_rate + decrease) > 0 {
                    0
                } else {
                    saturate(turn_rate + decrease)
                }
            }
        } else {
            limit_magnitude(
                saturate(turn_rate + push) as int,
                cvars.g_guided_missile_turn_rate_max as int,
            ) as i64
        }
    }

    /// The first half of a frame: throttle and steering. `decay` is
    /// `(1 - turn_rate_friction)^dt`. Returns the angle by which the
    /// velocity turns in this frame: the new turn rate times `dt`.
    pub fn tick_controls(&mut self, dt: i64, cvars: &Cvars, input: &Input, decay: i64) -> (angle:
        i64)
        requires
            cvars.g_guided_missile_speed_min <= cvars.g_guided_missile_speed_max,
        ensures
            final(self).pos == old(self).pos,
            final(self).vel == Self::throttled(cvars, old(self).vel, input.spec_up_down(), dt),
            final(self).turn_rate == Self::turned(
                cvars,
                old(self).turn_rate,
                input.spec_right_left(),
                dt,
                decay,
            ),
            angle == saturate(scaled_product(final(self).turn_rate as int, dt as int)),
    {
        let change = directed(input.up_down(), times(cvars.g_guided_missile_speed_change, dt));
        let speed_old = saturated(self.vel.magnitude() as i128);
        let speed = clamped(
            plus(speed_old, change),
            cvars.g_guided_missile_speed_min,
            cvars.g_guided_missile_speed_max,
        );
        self.vel = self.vel.normalized().scaled(speed);

        let max_change = times(cvars.g_guided_missile_turn_rate_increase, dt);
        let push = directed(input.right_left(), max_change);
        let old_rate = self.turn_rate;
        if push == 0 {
            let after_decay = times(old_rate, decay);
            let linear = if old_rate >= after_decay {
                minus(old_rate, after_decay)
            } else {
                minus(after_decay, old_rate)
            };
            let constant = times(cvars.g_guided_missile_turn_rate_decrease, dt);
            let sum = plus(linear, constant);
            let decrease = if sum <= max_change {
                sum
            } else {
                max_change
            };
            if old_rate > 0 {
                let r = minus(old_rate, decrease);
                self.turn_rate = if r < 0 {
                    0
                } else {
                    r
                };
            } else {
                let r = plus(old_rate, decrease);
                self.turn_rate = if r > 0 {
                    0
                } else {
                    r
                };
            }
        } else {
            self.turn_rate = limited(plus(old_rate, push), cvars.g_guided_missile_turn_rate_max);
        }
        times(self.turn_rate, dt)
    }

    /// The second half of a frame: the velocity turns by `turn`, the
    /// rotation that belongs to the angle that `tick_controls` returned,
    /// and the missile moves on. Returns the new position; the missile
    /// has hit something if the map is solid there.
    pub fn tick_flight(&mut self, dt: i64, turn: Rotation) -> (pos: Vec2)
        ensures
            final(self).vel == old(self).vel.spec_rotated(turn),
            final(self).pos == old(self).pos.spec_plus(final(self).vel.spec_scaled(dt)),
            final(self).turn_rate == old(self).turn_rate,
            pos == final(self).pos,
    {
        self.vel = self.vel.rotated(turn);
        self.pos = self.pos.plus(self.vel.scaled(dt));
        self.pos
    }
}

} // verus!

//! Gameplay configuration: the tuning values that the simulation reads.
//!
//! Every scalar is fixed-point (see the `fixed` module); times are in
//! seconds, angles in radians. `i64::MAX` as a limit means "no limit".

use vstd::prelude::*;
use crate::components::{Hitbox, VehicleType, Weapon};
use crate::fixed::{saturate, scaled_product, times, Vec2};

verus! {

/// Where a weapon is mounted.
#[derive(Clone, Copy, Debug, PartialEq, Eq, Structural)]
pub enum Hardpoint {
    /// On the hull: it turns with the vehicle only.
    Chassis,
    /// On the turret: it turns with the vehicle and with the turret.
    Turret,
}

/// How game-logic frames relate to rendering frames.
#[derive(Clone, Copy, Debug, PartialEq, Eq, Structural)]
pub enum TickrateMode {
    /// One game-logic frame per rendered frame, with a variable time step.
    Synchronized,
    /// As `Synchronized`, but with two half steps per rendered frame.
    SynchronizedTwice,
    /// A fixed time step; rendering shows the last computed state.
    Fixed,
}

impl Hardpoint {
    /// The name of this mounting, as the configuration writes it.
    pub open spec fn spec_name(self) -> Seq<char> {
        match self {
            Hardpoint::Chassis => "Chassis"@,
            Hardpoint::Turret => "Turret"@,
        }
    }

    /// The name of this mounting, as the configuration writes it.
    pub fn name(self) -> (r: &'static str)
        ensures
            r@ == self.spec_name(),
    {
        match self {
            Hardpoint::Chassis => "Chassis",
            Hardpoint::Turret => "Turret",
        }
    }

    /// The mounting that `text` names, if it names one. Names are
    /// matched letter for letter.
    pub open spec fn named(text: Seq<char>) -> Option<Hardpoint> {
        if text == "Chassis"@ {
            Some(Hardpoint::Chassis)
        } else if text == "Turret"@ {
            Some(Hardpoint::Turret)
        } else {
            None
        }
    }

    /// The mounting that `text` names, if it names one.
    pub fn parse(text: &str) -> (r: Option<Hardpoint>)
        ensures
            r == Self::named(text@),
    {
        let text = text.to_owned();
        if text == "Chassis".to_owned() {
            Some(Hardpoint::Chassis)
        } else if text == "Turret".to_owned() {
            Some(Hardpoint::Turret)
        } else {
            None
        }
    }
}

impl TickrateMode {
    /// The name of this mode, as the configuration writes it.
    pub open spec fn spec_name(self) -> Seq<char> {
        match self {
            TickrateMode::Synchronized => "Synchronized"@,
            TickrateMode::SynchronizedTwice => "SynchronizedTwice"@,
            TickrateMode::Fixed => "Fixed"@,
        }
    }

    /// The name of this mode, as the configuration writes it.
    pub fn name(self) -> (r: &'static str)
        ensures
            r@ == self.spec_name(),
    {
        match self {
            TickrateMode::Synchronized => "Synchronized",
            TickrateMode::SynchronizedTwice => "SynchronizedTwice",
            TickrateMode::Fixed => "Fixed",
        }
    }

    /// The mode that `text` names, if it names one. Names are matched
    /// letter for letter.
    pub open spec fn named(text: Seq<char>) -> Option<TickrateMode> {
        if text == "Synchronized"@ {
            Some(TickrateMode::Synchronized)
        } else if text == "SynchronizedTwice"@ {
            Some(TickrateMode::SynchronizedTwice)
        } else if text == "Fixed"@ {
            Some(TickrateMode::Fixed)
        } else {
            None
        }
    }

    /// The mode that `text` names, if it names one.
    pub fn parse(text: &str) -> (r: Option<TickrateMode>)
        ensures
            r == Self::named(text@),
    {
        let text = text.to_owned();
        if text == "Synchronized".to_owned() {
            Some(TickrateMode::Synchronized)
        } else if text == "SynchronizedTwice".to_owned() {
            Some(TickrateMode::SynchronizedTwice)
        } else if text == "Fixed".to_owned() {
            Some(TickrateMode::Fixed)
        } else {
            None
        }
    }
}

/// The tuning values of one kind of moving thing.
#[derive(Clone, Copy, Debug, PartialEq, Eq, Structural)]
pub struct MovementStats {
    pub accel_backward: i64,
    pub accel_forward: i64,
    pub friction_const: i64,
    pub friction_linear: i64,
    pub speed_max: i64,
    pub steering_car: i64,
    pub turn_effectiveness: i64,
    pub turn_rate_friction_const: i64,
    pub turn_rate_friction_linear: i64,
    pub turn_rate_increase: i64,
    pub turn_rate_max: i64,
}

/// The gameplay configuration.
#[derive(Clone, Copy, Debug, PartialEq, Eq, Structural)]
pub struct Cvars {
    pub g_armor: i64,
    pub g_bfg_beam_damage_per_sec: i64,
    pub g_bfg_beam_range: i64,
    pub g_bfg_damage_direct: i64,
    pub g_bfg_explosion_damage: i64,
    pub g_bfg_explosion_radius: i64,
    pub g_bfg_explosion_scale: i64,
    pub g_bfg_radius: i64,
    pub g_bfg_reload_ammo: u32,
    pub g_bfg_reload_time: i64,
    pub g_bfg_speed: i64,
    pub g_bfg_vehicle_velocity_factor: i64,
    pub g_cluster_bomb_count: i32,
    pub g_cluster_bomb_damage_direct: i64,
    pub g_cluster_bomb_explosion_damage: i64,
    pub g_cluster_bomb_explosion_radius: i64,
    pub g_cluster_bomb_explosion_scale: i64,
    pub g_cluster_bomb_reload_ammo: u32,
    pub g_cluster_bomb_reload_time: i64,
    pub g_cluster_bomb_shadow_alpha: i64,
    pub g_cluster_bomb_shadow_x: i64,
    pub g_cluster_bomb_shadow_y: i64,
    pub g_cluster_bomb_speed: i64,
    pub g_cluster_bomb_speed_spread_forward: i64,
    pub g_cluster_bomb_speed_spread_gaussian: bool,
    pub g_cluster_bomb_speed_spread_sideways: i64,
    pub g_cluster_bomb_time: i64,
    pub g_cluster_bomb_time_spread: i64,
    pub g_cluster_bomb_vehicle_velocity_factor: i64,
    pub g_ffa_score_death: i32,
    pub g_ffa_score_kill: i32,
    pub g_guided_missile_accel_forward: i64,
    pub g_guided_missile_damage_direct: i64,
    pub g_guided_missile_explosion_damage: i64,
    pub g_guided_missile_explosion_radius: i64,
    pub g_guided_missile_explosion_scale: i64,
    pub g_guided_missile_friction_const: i64,
    pub g_guided_missile_friction_linear: i64,
    pub g_guided_missile_reload_ammo: u32,
    pub g_guided_missile_reload_time: i64,
    /// How fast throttle input changes the speed of a guided missile.
    pub g_guided_missile_speed_change: i64,
    pub g_guided_missile_speed_initial: i64,
    pub g_guided_missile_speed_max: i64,
    /// A guided missile never flies slower than this.
    pub g_guided_missile_speed_min: i64,
    pub g_guided_missile_turn_effectiveness: i64,
    /// Constant decay of a guided missile's turn rate without steering input.
    pub g_guided_missile_turn_rate_decrease: i64,
    /// Proportional decay of a guided missile's turn rate without steering input.
    pub g_guided_missile_turn_rate_friction: i64,
    pub g_guided_missile_turn_rate_friction_const: i64,
    pub g_guided_missile_turn_rate_friction_linear: i64,
    pub g_guided_missile_turn_rate_increase: i64,
    pub g_guided_missile_turn_rate_max: i64,
    pub g_guided_missile_vehicle_velocity_factor: i64,
    pub g_hardpoint_hovercraft_bfg: Hardpoint,
    pub g_hardpoint_hovercraft_bfg_x: i64,
    pub g_hardpoint_hovercraft_bfg_y: i64,
    pub g_hardpoint_hovercraft_cluster_bomb: Hardpoint,
    pub g_hardpoint_hovercraft_cluster_bomb_x: i64,
    pub g_hardpoint_hovercraft_cluster_bomb_y: i64,
    pub g_hardpoint_hovercraft_guided_missile: Hardpoint,
    pub g_hardpoint_hovercraft_guided_missile_x: i64,
    pub g_hardpoint_hovercraft_guided_missile_y: i64,
    pub g_hardpoint_hovercraft_homing_missile: Hardpoint,
    pub g_hardpoint_hovercraft_homing_missile_x: i64,
    pub g_hardpoint_hovercraft_homing_missile_y: i64,
    pub g_hardpoint_hovercraft_machine_gun: Hardpoint,
    pub g_hardpoint_hovercraft_machine_gun_x: i64,
    pub g_hardpoint_hovercraft_machine_gun_y: i64,
    pub g_hardpoint_hovercraft_railgun: Hardpoint,
    pub g_hardpoint_hovercraft_railgun_x: i64,
    pub g_hardpoint_hovercraft_railgun_y: i64,
    pub g_hardpoint_hovercraft_rockets: Hardpoint,
    pub g_hardpoint_hovercraft_rockets_x: i64,
    pub g_hardpoint_hovercraft_rockets_y: i64,
    pub g_hardpoint_hummer_bfg: Hardpoint,
    pub g_hardpoint_hummer_bfg_x: i64,
    pub g_hardpoint_hummer_bfg_y: i64,
    pub g_hardpoint_hummer_cluster_bomb: Hardpoint,
    pub g_hardpoint_hummer_cluster_bomb_x: i64,
    pub g_hardpoint_hummer_cluster_bomb_y: i64,
    pub g_hardpoint_hummer_guided_missile: Hardpoint,
    pub g_hardpoint_hummer_guided_missile_x: i64,
    pub g_hardpoint_hummer_guided_missile_y: i64,
    pub g_hardpoint_hummer_homing_missile: Hardpoint,
    pub g_hardpoint_hummer_homing_missile_x: i64,
    pub g_hardpoint_hummer_homing_missile_y: i64,
    pub g_hardpoint_hummer_machine_gun: Hardpoint,
    pub g_hardpoint_hummer_machine_gun_x: i64,
    pub g_hardpoint_hummer_machine_gun_y: i64,
    pub g_hardpoint_hummer_railgun: Hardpoint,
    pub g_hardpoint_hummer_railgun_x: i64,
    pub g_hardpoint_hummer_railgun_y: i64,
    pub g_hardpoint_hummer_rockets: Hardpoint,
    pub g_hardpoint_hummer_rockets_x: i64,
    pub g_hardpoint_hummer_rockets_y: i64,
    pub g_hardpoint_tank_bfg: Hardpoint,
    pub g_hardpoint_tank_bfg_x: i64,
    pub g_hardpoint_tank_bfg_y: i64,
    pub g_hardpoint_tank_cluster_bomb: Hardpoint,
    pub g_hardpoint_tank_cluster_bomb_x: i64,
    pub g_hardpoint_tank_cluster_bomb_y: i64,
    pub g_hardpoint_tank_guided_missile: Hardpoint,
    pub g_hardpoint_tank_guided_missile_x: i64,
    pub g_hardpoint_tank_guided_missile_y: i64,
    pub g_hardpoint_tank_homing_missile: Hardpoint,
    pub g_hardpoint_tank_homing_missile_x: i64,
    pub g_hardpoint_tank_homing_missile_y: i64,
    pub g_hardpoint_tank_machine_gun: Hardpoint,
    pub g_hardpoint_tank_machine_gun_x: i64,
    pub g_hardpoint_tank_machine_gun_y: i64,
    pub g_hardpoint_tank_railgun: Hardpoint,
    pub g_hardpoint_tank_railgun_x: i64,
    pub g_hardpoint_tank_railgun_y: i64,
    pub g_hardpoint_tank_rockets: Hardpoint,
    pub g_hardpoint_tank_rockets_x: i64,
    pub g_hardpoint_tank_rockets_y: i64,
    pub g_hitcircle_radius: i64,
    pub g_homing_missile_damage_direct: i64,
    pub g_homing_missile_explosion_damage: i64,
    pub g_homing_missile_explosion_radius: i64,
    pub g_homing_missile_explosion_scale: i64,
    pub g_homing_missile_reload_ammo: u32,
    pub g_homing_missile_reload_time: i64,
    pub g_homing_missile_speed_initial: i64,
    pub g_homing_missile_vehicle_velocity_factor: i64,
    pub g_hovercraft_accel_backward: i64,
    pub g_hovercraft_accel_forward: i64,
    pub g_hovercraft_armor_scale: i64,
    pub g_hovercraft_friction_const: i64,
    pub g_hovercraft_friction_linear: i64,
    pub g_hovercraft_maxs_x: i64,
    pub g_hovercraft_maxs_y: i64,
    pub g_hovercraft_mins_x: i64,
    pub g_hovercraft_mins_y: i64,
    pub g_hovercraft_speed_max: i64,
    pub g_hovercraft_steering_car: i64,
    pub g_hovercraft_turn_effectiveness: i64,
    pub g_hovercraft_turn_rate_friction_const: i64,
    pub g_hovercraft_turn_rate_friction_linear: i64,
    pub g_hovercraft_turn_rate_increase: i64,
    pub g_hovercraft_turn_rate_max: i64,
    pub g_hovercraft_turret_offset_chassis_x: i64,
    pub g_hovercraft_turret_offset_chassis_y: i64,
    pub g_hovercraft_turret_offset_turret_x: i64,
    pub g_hovercraft_turret_offset_turret_y: i64,
    pub g_hummer_accel_backward: i64,
    pub g_hummer_accel_forward: i64,
    pub g_hummer_armor_scale: i64,
    pub g_hummer_friction_const: i64,
    pub g_hummer_friction_linear: i64,
    pub g_hummer_maxs_x: i64,
    pub g_hummer_maxs_y: i64,
    pub g_hummer_mins_x: i64,
    pub g_hummer_mins_y: i64,
    pub g_hummer_speed_max: i64,
    pub g_hummer_steering_car: i64,
    pub g_hummer_turn_effectiveness: i64,
    pub g_hummer_turn_rate_friction_const: i64,
    pub g_hummer_turn_rate_friction_linear: i64,
    pub g_hummer_turn_rate_increase: i64,
    pub g_hummer_turn_rate_max: i64,
    pub g_hummer_turret_offset_chassis_x: i64,
    pub g_hummer_turret_offset_chassis_y: i64,
    pub g_hummer_turret_offset_turret_x: i64,
    pub g_hummer_turret_offset_turret_y: i64,
    pub g_machine_gun_angle_spread: i64,
    pub g_machine_gun_damage: i64,
    pub g_machine_gun_refire: i64,
    pub g_machine_gun_reload_ammo: u32,
    pub g_machine_gun_reload_time: i64,
    pub g_machine_gun_speed: i64,
    pub g_machine_gun_vehicle_velocity_factor: i64,
    pub g_railgun_damage: i64,
    pub g_railgun_push: i64,
    pub g_railgun_reload_ammo: u32,
    pub g_railgun_reload_time: i64,
    pub g_railgun_speed: i64,
    pub g_railgun_vehicle_velocity_factor: i64,
    pub g_respawn_delay: i64,
    pub g_rockets_damage_direct: i64,
    pub g_rockets_explosion_damage: i64,
    pub g_rockets_explosion_radius: i64,
    pub g_rockets_explosion_scale: i64,
    pub g_rockets_refire: i64,
    pub g_rockets_reload_ammo: u32,
    pub g_rockets_reload_time: i64,
    pub g_rockets_speed: i64,
    pub g_rockets_vehicle_velocity_factor: i64,
    pub g_self_destruct_damage_center: i64,
    pub g_self_destruct_damage_edge: i64,
    /// Scale of the first blast of a self-destruct.
    pub g_self_destruct_explosion1_scale: i64,
    /// Scale of the second blast of a self-destruct.
    pub g_self_destruct_explosion2_scale: i64,
    pub g_self_destruct_radius: i64,
    pub g_tank_accel_backward: i64,
    pub g_tank_accel_forward: i64,
    pub g_tank_armor_scale: i64,
    pub g_tank_friction_const: i64,
    pub g_tank_friction_linear: i64,
    pub g_tank_maxs_x: i64,
    pub g_tank_maxs_y: i64,
    pub g_tank_mins_x: i64,
    pub g_tank_mins_y: i64,
    pub g_tank_speed_max: i64,
    pub g_tank_steering_car: i64,
    pub g_tank_turn_effectiveness: i64,
    pub g_tank_turn_rate_friction_const: i64,
    pub g_tank_turn_rate_friction_linear: i64,
    pub g_tank_turn_rate_increase: i64,
    pub g_tank_turn_rate_max: i64,
    pub g_tank_turret_offset_chassis_x: i64,
    pub g_tank_turret_offset_chassis_y: i64,
    pub g_tank_turret_offset_turret_x: i64,
    pub g_tank_turret_offset_turret_y: i64,
    /// Turret turn speed in radians per second.
    pub g_turret_turn_speed: i64,
    pub sv_tickrate_mode: TickrateMode,
}

impl Cvars {
    /// The standard balance.
    pub open spec fn rec_wars() -> Cvars {
        Cvars {
            g_armor: 50_000_000,
            g_bfg_beam_damage_per_sec: 25_000_000,
            g_bfg_beam_range: 125_000_000,
            g_bfg_damage_direct: 0,
            g_bfg_explosion_damage: 100_000_000,
            g_bfg_explosion_radius: 40_000_000,
            g_bfg_explosion_scale: 1_000_000,
            g_bfg_radius: 4_000_000,
            g_bfg_reload_ammo: 1,
            g_bfg_reload_time: 2_500_000,
            g_bfg_speed: 150_000_000,
            g_bfg_vehicle_velocity_factor: 1_000_000,
            g_cluster_bomb_count: 40,
            g_cluster_bomb_damage_direct: 0,
            g_cluster_bomb_explosion_damage: 25_000_000,
            g_cluster_bomb_explosion_radius: 20_000_000,
            g_cluster_bomb_explosion_scale: 500_000,
            g_cluster_bomb_reload_ammo: 1,
            g_cluster_bomb_reload_time: 1_500_000,
            g_cluster_bomb_shadow_alpha: 1_000_000,
            g_cluster_bomb_shadow_x: 2_000_000,
            g_cluster_bomb_shadow_y: 2_000_000,
            g_cluster_bomb_speed: 400_000_000,
            g_cluster_bomb_speed_spread_forward: 50_000_000,
            g_cluster_bomb_speed_spread_gaussian: true,
            g_cluster_bomb_speed_spread_sideways: 50_000_000,
            g_cluster_bomb_time: 800_000,
            g_cluster_bomb_time_spread: 200_000,
            g_cluster_bomb_vehicle_velocity_factor: 1_000_000,
            g_ffa_score_death: (-1) as i32,
            g_ffa_score_kill: 1,
            g_guided_missile_accel_forward: 2_000_000_000,
            g_guided_missile_damage_direct: 0,
            g_guided_missile_explosion_damage: 56_000_000,
            g_guided_missile_explosion_radius: 40_000_000,
            g_guided_missile_explosion_scale: 1_000_000,
            g_guided_missile_friction_const: 0,
            g_guided_missile_friction_linear: 990_000,
            g_guided_missile_reload_ammo: 1,
            g_guided_missile_reload_time: 1_500_000,
            g_guided_missile_speed_change: 600_000_000,
            g_guided_missile_speed_initial: 100_000_000,
            g_guided_missile_speed_max: i64::MAX,
            g_guided_missile_speed_min: 300_000_000,
            g_guided_missile_turn_effectiveness: 1_000_000,
            g_guided_missile_turn_rate_decrease: 1_000_000,
            g_guided_missile_turn_rate_friction: 990_000,
            g_guided_missile_turn_rate_friction_const: 100_000,
            g_guided_missile_turn_rate_friction_linear: 995_000,
            g_guided_missile_turn_rate_increase: 30_000_000,
            g_guided_missile_turn_rate_max: i64::MAX,
            g_guided_missile_vehicle_velocity_factor: 1_000_000,
            g_hardpoint_hovercraft_bfg: Hardpoint::Turret,
            g_hardpoint_hovercraft_bfg_x: 19_000_000,
            g_hardpoint_hovercraft_bfg_y: 0,
            g_hardpoint_hovercraft_cluster_bomb: Hardpoint::Turret,
            g_hardpoint_hovercraft_cluster_bomb_x: 19_000_000,
            g_hardpoint_hovercraft_cluster_bomb_y: 0,
            g_hardpoint_hovercraft_guided_missile: Hardpoint::Chassis,
            g_hardpoint_hovercraft_guided_missile_x: 0,
            g_hardpoint_hovercraft_guided_missile_y: (-16_000_000) as i64,
            g_hardpoint_hovercraft_homing_missile: Hardpoint::Chassis,
            g_hardpoint_hovercraft_homing_missile_x: 0,
            g_hardpoint_hovercraft_homing_missile_y: (-16_000_000) as i64,
            g_hardpoint_hovercraft_machine_gun: Hardpoint::Turret,
            g_hardpoint_hovercraft_machine_gun_x: 19_000_000,
            g_hardpoint_hovercraft_machine_gun_y: 0,
            g_hardpoint_hovercraft_railgun: Hardpoint::Turret,
            g_hardpoint_hovercraft_railgun_x: 19_000_000,
            g_hardpoint_hovercraft_railgun_y: 0,
            g_hardpoint_hovercraft_rockets: Hardpoint::Turret,
            g_hardpoint_hovercraft_rockets_x: 19_000_000,
            g_hardpoint_hovercraft_rockets_y: 0,
            g_hardpoint_hummer_bfg: Hardpoint::Chassis,
            g_hardpoint_hummer_bfg_x: 10_000_000,
            g_hardpoint_hummer_bfg_y: 9_000_000,
            g_hardpoint_hummer_cluster_bomb: Hardpoint::Turret,
            g_hardpoint_hummer_cluster_bomb_x: 0,
            g_hardpoint_hummer_cluster_bomb_y: 0,
            g_hardpoint_hummer_guided_missile: Hardpoint::Chassis,
            g_hardpoint_hummer_guided_missile_x: 0,
            g_hardpoint_hummer_guided_missile_y: (-10_000_000) as i64,
            g_hardpoint_hummer_homing_missile: Hardpoint::Chassis,
            g_hardpoint_hummer_homing_missile_x: 0,
            g_hardpoint_hummer_homing_missile_y: (-10_000_000) as i64,
            g_hardpoint_hummer_machine_gun: Hardpoint::Chassis,
            g_hardpoint_hummer_machine_gun_x: 10_000_000,
            g_hardpoint_hummer_machine_gun_y: 9_000_000,
            g_hardpoint_hummer_railgun: Hardpoint::Chassis,
            g_hardpoint_hummer_railgun_x: 10_000_000,
            g_hardpoint_hummer_railgun_y: 9_000_000,
            g_hardpoint_hummer_rockets: Hardpoint::Turret,
            g_hardpoint_hummer_rockets_x: 0,
            g_hardpoint_hummer_rockets_y: 0,
            g_hardpoint_tank_bfg: Hardpoint::Turret,
            g_hardpoint_tank_bfg_x: 35_000_000,
            g_hardpoint_tank_bfg_y: 0,
            g_hardpoint_tank_cluster_bomb: Hardpoint::Turret,
            g_hardpoint_tank_cluster_bomb_x: 35_000_000,
            g_hardpoint_tank_cluster_bomb_y: 0,
            g_hardpoint_tank_guided_missile: Hardpoint::Chassis,
            g_hardpoint_tank_guided_missile_x: 0,
            g_hardpoint_tank_guided_missile_y: (-14_000_000) as i64,
            g_hardpoint_tank_homing_missile: Hardpoint::Chassis,
            g_hardpoint_tank_homing_missile_x: 0,
            g_hardpoint_tank_homing_missile_y: (-14_000_000) as i64,
            g_hardpoint_tank_machine_gun: Hardpoint::Turret,
            g_hardpoint_tank_machine_gun_x: 12_000_000,
            g_hardpoint_tank_machine_gun_y: (-5_000_000) as i64,
            g_hardpoint_tank_railgun: Hardpoint::Turret,
            g_hardpoint_tank_railgun_x: 35_000_000,
            g_hardpoint_tank_railgun_y: 0,
            g_hardpoint_tank_rockets: Hardpoint::Turret,
            g_hardpoint_tank_rockets_x: 35_000_000,
            g_hardpoint_tank_rockets_y: 0,
            g_hitcircle_radius: 24_000_000,
            g_homing_missile_damage_direct: 0,
            g_homing_missile_explosion_damage: 56_000_000,
            g_homing_missile_explosion_radius: 40_000_000,
            g_homing_missile_explosion_scale: 1_000_000,
            g_homing_missile_reload_ammo: 1,
            g_homing_missile_reload_time: 1_500_000,
            g_homing_missile_speed_initial: 360_000_000,
            g_homing_missile_vehicle_velocity_factor: 1_000_000,
            g_hovercraft_accel_backward: 400_000_000,
            g_hovercraft_accel_forward: 400_000_000,
            g_hovercraft_armor_scale: 650_000,
            g_hovercraft_friction_const: 0,
            g_hovercraft_friction_linear: 600_000,
            g_hovercraft_maxs_x: 22_000_000,
            g_hovercraft_maxs_y: 14_000_000,
            g_hovercraft_mins_x: (-22_000_000) as i64,
            g_hovercraft_mins_y: (-14_000_000) as i64,
            g_hovercraft_speed_max: i64::MAX,
            g_hovercraft_steering_car: 0,
            g_hovercraft_turn_effectiveness: 0,
            g_hovercraft_turn_rate_friction_const: 30_000,
            g_hovercraft_turn_rate_friction_linear: 920_000,
            g_hovercraft_turn_rate_increase: 10_000_000,
            g_hovercraft_turn_rate_max: i64::MAX,
            g_hovercraft_turret_offset_chassis_x: (-9_000_000) as i64,
            g_hovercraft_turret_offset_chassis_y: 5_000_000,
            g_hovercraft_turret_offset_turret_x: (-8_000_000) as i64,
            g_hovercraft_turret_offset_turret_y: 0,
            g_hummer_accel_backward: 600_000_000,
            g_hummer_accel_forward: 600_000_000,
            g_hummer_armor_scale: 625_000,
            g_hummer_friction_const: 11_000_000,
            g_hummer_friction_linear: 800_000,
            g_hummer_maxs_x: 20_000_000,
            g_hummer_maxs_y: 9_000_000,
            g_hummer_mins_x: (-20_000_000) as i64,
            g_hummer_mins_y: (-9_000_000) as i64,
            g_hummer_speed_max: i64::MAX,
            g_hummer_steering_car: 200_000_000,
            g_hummer_turn_effectiveness: 1_000_000,
            g_hummer_turn_rate_friction_const: 40_000,
            g_hummer_turn_rate_friction_linear: 970_000,
            g_hummer_turn_rate_increase: 18_000_000,
            g_hummer_turn_rate_max: i64::MAX,
            g_hummer_turret_offset_chassis_x: (-12_000_000) as i64,
            g_hummer_turret_offset_chassis_y: 0,
            g_hummer_turret_offset_turret_x: 0,
            g_hummer_turret_offset_turret_y: 0,
            g_machine_gun_angle_spread: 15_000,
            g_machine_gun_damage: 2_500_000,
            g_machine_gun_refire: 50_000,
            g_machine_gun_reload_ammo: 50,
            g_machine_gun_reload_time: 1_000_000,
            g_machine_gun_speed: 1_000_000_000,
            g_machine_gun_vehicle_velocity_factor: 1_000_000,
            g_railgun_damage: 47_000_000,
            g_railgun_push: 300_000_000,
            g_railgun_reload_ammo: 1,
            g_railgun_reload_time: 1_000_000,
            g_railgun_speed: 2_500_000_000,
            g_railgun_vehicle_velocity_factor: 0,
            g_respawn_delay: 500_000,
            g_rockets_damage_direct: 25_000_000,
            g_rockets_explosion_damage: 0,
            g_rockets_explosion_radius: 20_000_000,
            g_rockets_explosion_scale: 500_000,
            g_rockets_refire: 200_000,
            g_rockets_reload_ammo: 6,
            g_rockets_reload_time: 1_500_000,
            g_rockets_speed: 600_000_000,
            g_rockets_vehicle_velocity_factor: 1_000_000,
            g_self_destruct_damage_center: 150_000_000,
            g_self_destruct_damage_edge: 0,
            g_self_destruct_explosion1_scale: 2_000_000,
            g_self_destruct_explosion2_scale: 1_000_000,
            g_self_destruct_radius: 175_000_000,
            g_tank_accel_backward: 550_000_000,
            g_tank_accel_forward: 550_000_000,
            g_tank_armor_scale: 1_000_000,
            g_tank_friction_const: 50_000_000,
            g_tank_friction_linear: 900_000,
            g_tank_maxs_x: 19_000_000,
            g_tank_maxs_y: 12_000_000,
            g_tank_mins_x: (-19_000_000) as i64,
            g_tank_mins_y: (-12_000_000) as i64,
            g_tank_speed_max: i64::MAX,
            g_tank_steering_car: 0,
            g_tank_turn_effectiveness: 1_000_000,
            g_tank_turn_rate_friction_const: 50_000,
            g_tank_turn_rate_friction_linear: 960_000,
            g_tank_turn_rate_increase: 8_000_000,
            g_tank_turn_rate_max: i64::MAX,
            g_tank_turret_offset_chassis_x: (-5_000_000) as i64,
            g_tank_turret_offset_chassis_y: 0,
            g_tank_turret_offset_turret_x: (-14_000_000) as i64,
            g_tank_turret_offset_turret_y: 0,
            g_turret_turn_speed: 2_094_395,
            sv_tickrate_mode: TickrateMode::Synchronized,
        }
    }

    /// A configuration with the standard balance.
    pub fn new_rec_wars() -> (r: Cvars)
        ensures
            r == Self::rec_wars(),
    {
        Cvars {
            g_armor: 50_000_000,
            g_bfg_beam_damage_per_sec: 25_000_000,
            g_bfg_beam_range: 125_000_000,
            g_bfg_damage_direct: 0,
            g_bfg_explosion_damage: 100_000_000,
            g_bfg_explosion_radius: 40_000_000,
            g_bfg_explosion_scale: 1_000_000,
            g_bfg_radius: 4_000_000,
            g_bfg_reload_ammo: 1,
            g_bfg_reload_time: 2_500_000,
            g_bfg_speed: 150_000_000,
            g_bfg_vehicle_velocity_factor: 1_000_000,
            g_cluster_bomb_count: 40,
            g_cluster_bomb_damage_direct: 0,
            g_cluster_bomb_explosion_damage: 25_000_000,
            g_cluster_bomb_explosion_radius: 20_000_000,
            g_cluster_bomb_explosion_scale: 500_000,
            g_cluster_bomb_reload_ammo: 1,
            g_cluster_bomb_reload_time: 1_500_000,
            g_cluster_bomb_shadow_alpha: 1_000_000,
            g_cluster_bomb_shadow_x: 2_000_000,
            g_cluster_bomb_shadow_y: 2_000_000,
            g_cluster_bomb_speed: 400_000_000,
            g_cluster_bomb_speed_spread_forward: 50_000_000,
            g_cluster_bomb_speed_spread_gaussian: true,
            g_cluster_bomb_speed_spread_sideways: 50_000_000,
            g_cluster_bomb_time: 800_000,
            g_cluster_bomb_time_spread: 200_000,
            g_cluster_bomb_vehicle_velocity_factor: 1_000_000,
            g_ffa_score_death: -1,
            g_ffa_score_kill: 1,
            g_guided_missile_accel_forward: 2_000_000_000,
            g_guided_missile_damage_direct: 0,
            g_guided_missile_explosion_damage: 56_000_000,
            g_guided_missile_explosion_radius: 40_000_000,
            g_guided_missile_explosion_scale: 1_000_000,
            g_guided_missile_friction_const: 0,
            g_guided_missile_friction_linear: 990_000,
            g_guided_missile_reload_ammo: 1,
            g_guided_missile_reload_time: 1_500_000,
            g_guided_missile_speed_change: 600_000_000,
            g_guided_missile_speed_initial: 100_000_000,
            g_guided_missile_speed_max: i64::MAX,
            g_guided_missile_speed_min: 300_000_000,
            g_guided_missile_turn_effectiveness: 1_000_000,
            g_guided_missile_turn_rate_decrease: 1_000_000,
            g_guided_missile_turn_rate_friction: 990_000,
            g_guided_missile_turn_rate_friction_const: 100_000,
            g_guided_missile_turn_rate_friction_linear: 995_000,
            g_guided_missile_turn_rate_increase: 30_000_000,
            g_guided_missile_turn_rate_max: i64::MAX,
            g_guided_missile_vehicle_velocity_factor: 1_000_000,
            g_hardpoint_hovercraft_bfg: Hardpoint::Turret,
            g_hardpoint_hovercraft_bfg_x: 19_000_000,
            g_hardpoint_hovercraft_bfg_y: 0,
            g_hardpoint_hovercraft_cluster_bomb: Hardpoint::Turret,
            g_hardpoint_hovercraft_cluster_bomb_x: 19_000_000,
            g_hardpoint_hovercraft_cluster_bomb_y: 0,
            g_hardpoint_hovercraft_guided_missile: Hardpoint::Chassis,
            g_hardpoint_hovercraft_guided_missile_x: 0,
            g_hardpoint_hovercraft_guided_missile_y: -16_000_000,
            g_hardpoint_hovercraft_homing_missile: Hardpoint::Chassis,
            g_hardpoint_hovercraft_homing_missile_x: 0,
            g_hardpoint_hovercraft_homing_missile_y: -16_000_000,
            g_hardpoint_hovercraft_machine_gun: Hardpoint::Turret,
            g_hardpoint_hovercraft_machine_gun_x: 19_000_000,
            g_hardpoint_hovercraft_machine_gun_y: 0,
            g_hardpoint_hovercraft_railgun: Hardpoint::Turret,
            g_hardpoint_hovercraft_railgun_x: 19_000_000,
            g_hardpoint_hovercraft_railgun_y: 0,
            g_hardpoint_hovercraft_rockets: Hardpoint::Turret,
            g_hardpoint_hovercraft_rockets_x: 19_000_000,
            g_hardpoint_hovercraft_rockets_y: 0,
            g_hardpoint_hummer_bfg: Hardpoint::Chassis,
            g_hardpoint_hummer_bfg_x: 10_000_000,
            g_hardpoint_hummer_bfg_y: 9_000_000,
            g_hardpoint_hummer_cluster_bomb: Hardpoint::Turret,
            g_hardpoint_hummer_cluster_bomb_x: 0,
            g_hardpoint_hummer_cluster_bomb_y: 0,
            g_hardpoint_hummer_guided_missile: Hardpoint::Chassis,
            g_hardpoint_hummer_guided_missile_x: 0,
            g_hardpoint_hummer_guided_missile_y: -10_000_000,
            g_hardpoint_hummer_homing_missile: Hardpoint::Chassis,
            g_hardpoint_hummer_homing_missile_x: 0,
            g_hardpoint_hummer_homing_missile_y: -10_000_000,
            g_hardpoint_hummer_machine_gun: Hardpoint::Chassis,
            g_hardpoint_hummer_machine_gun_x: 10_000_000,
            g_hardpoint_hummer_machine_gun_y: 9_000_000,
            g_hardpoint_hummer_railgun: Hardpoint::Chassis,
            g_hardpoint_hummer_railgun_x: 10_000_000,
            g_hardpoint_hummer_railgun_y: 9_000_000,
            g_hardpoint_hummer_rockets: Hardpoint::Turret,
            g_hardpoint_hummer_rockets_x: 0,
            g_hardpoint_hummer_rockets_y: 0,
            g_hardpoint_tank_bfg: Hardpoint::Turret,
            g_hardpoint_tank_bfg_x: 35_000_000,
            g_hardpoint_tank_bfg_y: 0,
            g_hardpoint_tank_cluster_bomb: Hardpoint::Turret,
            g_hardpoint_tank_cluster_bomb_x: 35_000_000,
            g_hardpoint_tank_cluster_bomb_y: 0,
            g_hardpoint_tank_guided_missile: Hardpoint::Chassis,
            g_hardpoint_tank_guided_missile_x: 0,
            g_hardpoint_tank_guided_missile_y: -14_000_000,
            g_hardpoint_tank_homing_missile: Hardpoint::Chassis,
            g_hardpoint_tank_homing_missile_x: 0,
            g_hardpoint_tank_homing_missile_y: -14_000_000,
            g_hardpoint_tank_machine_gun: Hardpoint::Turret,
            g_hardpoint_tank_machine_gun_x: 12_000_000,
            g_hardpoint_tank_machine_gun_y: -5_000_000,
            g_hardpoint_tank_railgun: Hardpoint::Turret,
            g_hardpoint_tank_railgun_x: 35_000_000,
            g_hardpoint_tank_railgun_y: 0,
            g_hardpoint_tank_rockets: Hardpoint::Turret,
            g_hardpoint_tank_rockets_x: 35_000_000,
            g_hardpoint_tank_rockets_y: 0,
            g_hitcircle_radius: 24_000_000,
            g_homing_missile_damage_direct: 0,
            g_homing_missile_explosion_damage: 56_000_000,
            g_homing_missile_explosion_radius: 40_000_000,
            g_homing_missile_explosion_scale: 1_000_000,
            g_homing_missile_reload_ammo: 1,
            g_homing_missile_reload_time: 1_500_000,
            g_homing_missile_speed_initial: 360_000_000,
            g_homing_missile_vehicle_velocity_factor: 1_000_000,
            g_hovercraft_accel_backward: 400_000_000,
            g_hovercraft_accel_forward: 400_000_000,
            g_hovercraft_armor_scale: 650_000,
            g_hovercraft_friction_const: 0,
            g_hovercraft_friction_linear: 600_000,
            g_hovercraft_maxs_x: 22_000_000,
            g_hovercraft_maxs_y: 14_000_000,
            g_hovercraft_mins_x: -22_000_000,
            g_hovercraft_mins_y: -14_000_000,
            g_hovercraft_speed_max: i64::MAX,
            g_hovercraft_steering_car: 0,
            g_hovercraft_turn_effectiveness: 0,
            g_hovercraft_turn_rate_friction_const: 30_000,
            g_hovercraft_turn_rate_friction_linear: 920_000,
            g_hovercraft_turn_rate_increase: 10_000_000,
            g_hovercraft_turn_rate_max: i64::MAX,
            g_hovercraft_turret_offset_chassis_x: -9_000_000,
            g_hovercraft_turret_offset_chassis_y: 5_000_000,
            g_hovercraft_turret_offset_turret_x: -8_000_000,
            g_hovercraft_turret_offset_turret_y: 0,
            g_hummer_accel_backward: 600_000_000,
            g_hummer_accel_forward: 600_000_000,
            g_hummer_armor_scale: 625_000,
            g_hummer_friction_const: 11_000_000,
            g_hummer_friction_linear: 800_000,
            g_hummer_maxs_x: 20_000_000,
            g_hummer_maxs_y: 9_000_000,
            g_hummer_mins_x: -20_000_000,
            g_hummer_mins_y: -9_000_000,
            g_hummer_speed_max: i64::MAX,
            g_hummer_steering_car: 200_000_000,
            g_hummer_turn_effectiveness: 1_000_000,
            g_hummer_turn_rate_friction_const: 40_000,
            g_hummer_turn_rate_friction_linear: 970_000,
            g_hummer_turn_rate_increase: 18_000_000,
            g_hummer_turn_rate_max: i64::MAX,
            g_hummer_turret_offset_chassis_x: -12_000_000,
            g_hummer_turret_offset_chassis_y: 0,
            g_hummer_turret_offset_turret_x: 0,
            g_hummer_turret_offset_turret_y: 0,
            g_machine_gun_angle_spread: 15_000,
            g_machine_gun_damage: 2_500_000,
            g_machine_gun_refire: 50_000,
            g_machine_gun_reload_ammo: 50,
            g_machine_gun_reload_time: 1_000_000,
            g_machine_gun_speed: 1_000_000_000,
            g_machine_gun_vehicle_velocity_factor: 1_000_000,
            g_railgun_damage: 47_000_000,
            g_railgun_push: 300_000_000,
            g_railgun_reload_ammo: 1,
            g_railgun_reload_time: 1_000_000,
            g_railgun_speed: 2_500_000_000,
            g_railgun_vehicle_velocity_factor: 0,
            g_respawn_delay: 500_000,
            g_rockets_damage_direct: 25_000_000,
            g_rockets_explosion_damage: 0,
            g_rockets_explosion_radius: 20_000_000,
            g_rockets_explosion_scale: 500_000,
            g_rockets_refire: 200_000,
            g_rockets_reload_ammo: 6,
            g_rockets_reload_time: 1_500_000,
            g_rockets_speed: 600_000_000,
            g_rockets_vehicle_velocity_factor: 1_000_000,
            g_self_destruct_damage_center: 150_000_000,
            g_self_destruct_damage_edge: 0,
            g_self_destruct_explosion1_scale: 2_000_000,
            g_self_destruct_explosion2_scale: 1_000_000,
            g_self_destruct_radius: 175_000_000,
            g_tank_accel_backward: 550_000_000,
            g_tank_accel_forward: 550_000_000,
            g_tank_armor_scale: 1_000_000,
            g_tank_friction_const: 50_000_000,
            g_tank_friction_linear: 900_000,
            g_tank_maxs_x: 19_000_000,
            g_tank_maxs_y: 12_000_000,
            g_tank_mins_x: -19_000_000,
            g_tank_mins_y: -12_000_000,
            g_tank_speed_max: i64::MAX,
            g_tank_steering_car: 0,
            g_tank_turn_effectiveness: 1_000_000,
            g_tank_turn_rate_friction_const: 50_000,
            g_tank_turn_rate_friction_linear: 960_000,
            g_tank_turn_rate_increase: 8_000_000,
            g_tank_turn_rate_max: i64::MAX,
            g_tank_turret_offset_chassis_x: -5_000_000,
            g_tank_turret_offset_chassis_y: 0,
            g_tank_turret_offset_turret_x: -14_000_000,
            g_tank_turret_offset_turret_y: 0,
            g_turret_turn_speed: 2_094_395,
            sv_tickrate_mode: TickrateMode::Synchronized,
        }
    }

    /// The balance of the game's ancestor: the standard one with a much
    /// faster railgun.
    pub open spec fn rec_war() -> Cvars {
        Cvars { g_railgun_speed: 1_000_000_000_000, ..Self::rec_wars() }
    }

    /// A configuration with the ancestor's balance.
    pub fn new_rec_war() -> (r: Cvars)
        ensures
            r == Self::rec_war(),
    {
        let mut c = Self::new_rec_wars();
        c.g_railgun_speed = 1_000_000_000_000;
        c
    }

    /// Resets this configuration to the standard balance.
    pub fn load_rec_wars(&mut self)
        ensures
            *final(self) == Self::rec_wars(),
    {
        *self = Self::new_rec_wars();
    }

    /// Resets this configuration to the ancestor's balance.
    pub fn load_rec_war(&mut self)
        ensures
            *final(self) == Self::rec_war(),
    {
        *self = Self::new_rec_war();
    }

    /// Whether the weapon sits on the chassis or on the turret of this kind of vehicle, and where relative to that part's centre.
    pub open spec fn hardpoint(&self, veh_type: VehicleType, weapon: Weapon) -> (Hardpoint, Vec2) {
        match veh_type {
            VehicleType::Tank => match weapon {
                Weapon::Mg => (
                    self.g_hardpoint_tank_machine_gun,
                    Vec2 { x: self.g_hardpoint_tank_machine_gun_x, y: self.g_hardpoint_tank_machine_gun_y },
                ),
                Weapon::Rail => (
                    self.g_hardpoint_tank_railgun,
                    Vec2 { x: self.g_hardpoint_tank_railgun_x, y: self.g_hardpoint_tank_railgun_y },
                ),
                Weapon::Cb => (
                    self.g_hardpoint_tank_cluster_bomb,
                    Vec2 { x: self.g_hardpoint_tank_cluster_bomb_x, y: self.g_hardpoint_tank_cluster_bomb_y },
                ),
                Weapon::Rockets => (
                    self.g_hardpoint_tank_rockets,
                    Vec2 { x: self.g_hardpoint_tank_rockets_x, y: self.g_hardpoint_tank_rockets_y },
                ),
                Weapon::Hm => (
                    self.g_hardpoint_tank_homing_missile,
                    Vec2 { x: self.g_hardpoint_tank_homing_missile_x, y: self.g_hardpoint_tank_homing_missile_y },
                ),
                Weapon::Gm => (
                    self.g_hardpoint_tank_guided_missile,
                    Vec2 { x: self.g_hardpoint_tank_guided_missile_x, y: self.g_hardpoint_tank_guided_missile_y },
                ),
                Weapon::Bfg => (
                    self.g_hardpoint_tank_bfg,
                    Vec2 { x: self.g_hardpoint_tank_bfg_x, y: self.g_hardpoint_tank_bfg_y },
                ),
            },
            VehicleType::Hovercraft => match weapon {
                Weapon::Mg => (
                    self.g_hardpoint_hovercraft_machine_gun,
                    Vec2 { x: self.g_hardpoint_hovercraft_machine_gun_x, y: self.g_hardpoint_hovercraft_machine_gun_y },
                ),
                Weapon::Rail => (
                    self.g_hardpoint_hovercraft_railgun,
                    Vec2 { x: self.g_hardpoint_hovercraft_railgun_x, y: self.g_hardpoint_hovercraft_railgun_y },
                ),
                Weapon::Cb => (
                    self.g_hardpoint_hovercraft_cluster_bomb,
                    Vec2 { x: self.g_hardpoint_hovercraft_cluster_bomb_x, y: self.g_hardpoint_hovercraft_cluster_bomb_y },
                ),
                Weapon::Rockets => (
                    self.g_hardpoint_hovercraft_rockets,
                    Vec2 { x: self.g_hardpoint_hovercraft_rockets_x, y: self.g_hardpoint_hovercraft_rockets_y },
                ),
                Weapon::Hm => (
                    self.g_hardpoint_hovercraft_homing_missile,
                    Vec2 { x: self.g_hardpoint_hovercraft_homing_missile_x, y: self.g_hardpoint_hovercraft_homing_missile_y },
                ),
                Weapon::Gm => (
                    self.g_hardpoint_hovercraft_guided_missile,
                    Vec2 { x: self.g_hardpoint_hovercraft_guided_missile_x, y: self.g_hardpoint_hovercraft_guided_missile_y },
                ),
                Weapon::Bfg => (
                    self.g_hardpoint_hovercraft_bfg,
                    Vec2 { x: self.g_hardpoint_hovercraft_bfg_x, y: self.g_hardpoint_hovercraft_bfg_y },
                ),
            },
            VehicleType::Hummer => match weapon {
                Weapon::Mg => (
                    self.g_hardpoint_hummer_machine_gun,
                    Vec2 { x: self.g_hardpoint_hummer_machine_gun_x, y: self.g_hardpoint_hummer_machine_gun_y },
                ),
                Weapon::Rail => (
                    self.g_hardpoint_hummer_railgun,
                    Vec2 { x: self.g_hardpoint_hummer_railgun_x, y: self.g_hardpoint_hummer_railgun_y },
                ),
                Weapon::Cb => (
                    self.g_hardpoint_hummer_cluster_bomb,
                    Vec2 { x: self.g_hardpoint_hummer_cluster_bomb_x, y: self.g_hardpoint_hummer_cluster_bomb_y },
                ),
                Weapon::Rockets => (
                    self.g_hardpoint_hummer_rockets,
                    Vec2 { x: self.g_hardpoint_hummer_rockets_x, y: self.g_hardpoint_hummer_rockets_y },
                ),
                Weapon::Hm => (
                    self.g_hardpoint_hummer_homing_missile,
                    Vec2 { x: self.g_hardpoint_hummer_homing_missile_x, y: self.g_hardpoint_hummer_homing_missile_y },
                ),
                Weapon::Gm => (
                    self.g_hardpoint_hummer_guided_missile,
                    Vec2 { x: self.g_hardpoint_hummer_guided_missile_x, y: self.g_hardpoint_hummer_guided_missile_y },
                ),
                Weapon::Bfg => (
                    self.g_hardpoint_hummer_bfg,
                    Vec2 { x: self.g_hardpoint_hummer_bfg_x, y: self.g_hardpoint_hummer_bfg_y },
                ),
            },
        }
    }

    /// Whether the weapon sits on the chassis or on the turret of this kind of vehicle, and where relative to that part's centre.
    pub fn g_hardpoint(&self, veh_type: VehicleType, weapon: Weapon) -> (r: (Hardpoint, Vec2))
        ensures
            r == self.hardpoint(veh_type, weapon),
    {
        match veh_type {
            VehicleType::Tank => match weapon {
                Weapon::Mg => (
                    self.g_hardpoint_tank_machine_gun,
                    Vec2 { x: self.g_hardpoint_tank_machine_gun_x, y: self.g_hardpoint_tank_machine_gun_y },
                ),
                Weapon::Rail => (
                    self.g_hardpoint_tank_railgun,
                    Vec2 { x: self.g_hardpoint_tank_railgun_x, y: self.g_hardpoint_tank_railgun_y },
                ),
                Weapon::Cb => (
                    self.g_hardpoint_tank_cluster_bomb,
                    Vec2 { x: self.g_hardpoint_tank_cluster_bomb_x, y: self.g_hardpoint_tank_cluster_bomb_y },
                ),
                Weapon::Rockets => (
                    self.g_hardpoint_tank_rockets,
                    Vec2 { x: self.g_hardpoint_tank_rockets_x, y: self.g_hardpoint_tank_rockets_y },
                ),
                Weapon::Hm => (
                    self.g_hardpoint_tank_homing_missile,
                    Vec2 { x: self.g_hardpoint_tank_homing_missile_x, y: self.g_hardpoint_tank_homing_missile_y },
                ),
                Weapon::Gm => (
                    self.g_hardpoint_tank_guided_missile,
                    Vec2 { x: self.g_hardpoint_tank_guided_missile_x, y: self.g_hardpoint_tank_guided_missile_y },
                ),
                Weapon::Bfg => (
                    self.g_hardpoint_tank_bfg,
                    Vec2 { x: self.g_hardpoint_tank_bfg_x, y: self.g_hardpoint_tank_bfg_y },
                ),
            },
            VehicleType::Hovercraft => match weapon {
                Weapon::Mg => (
                    self.g_hardpoint_hovercraft_machine_gun,
                    Vec2 { x: self.g_hardpoint_hovercraft_machine_gun_x, y: self.g_hardpoint_hovercraft_machine_gun_y },
                ),
                Weapon::Rail => (
                    self.g_hardpoint_hovercraft_railgun,
                    Vec2 { x: self.g_hardpoint_hovercraft_railgun_x, y: self.g_hardpoint_hovercraft_railgun_y },
                ),
                Weapon::Cb => (
                    self.g_hardpoint_hovercraft_cluster_bomb,
                    Vec2 { x: self.g_hardpoint_hovercraft_cluster_bomb_x, y: self.g_hardpoint_hovercraft_cluster_bomb_y },
                ),
                Weapon::Rockets => (
                    self.g_hardpoint_hovercraft_rockets,
                    Vec2 { x: self.g_hardpoint_hovercraft_rockets_x, y: self.g_hardpoint_hovercraft_rockets_y },
                ),
                Weapon::Hm => (
                    self.g_hardpoint_hovercraft_homing_missile,
                    Vec2 { x: self.g_hardpoint_hovercraft_homing_missile_x, y: self.g_hardpoint_hovercraft_homing_missile_y },
                ),
                Weapon::Gm => (
                    self.g_hardpoint_hovercraft_guided_missile,
                    Vec2 { x: self.g_hardpoint_hovercraft_guided_missile_x, y: self.g_hardpoint_hovercraft_guided_missile_y },
                ),
                Weapon::Bfg => (
                    self.g_hardpoint_hovercraft_bfg,
                    Vec2 { x: self.g_hardpoint_hovercraft_bfg_x, y: self.g_hardpoint_hovercraft_bfg_y },
                ),
            },
            VehicleType::Hummer => match weapon {
                Weapon::Mg => (
                    self.g_hardpoint_hummer_machine_gun,
                    Vec2 { x: self.g_hardpoint_hummer_machine_gun_x, y: self.g_hardpoint_hummer_machine_gun_y },
                ),
                Weapon::Rail => (
                    self.g_hardpoint_hummer_railgun,
                    Vec2 { x: self.g_hardpoint_hummer_railgun_x, y: self.g_hardpoint_hummer_railgun_y },
                ),
                Weapon::Cb => (
                    self.g_hardpoint_hummer_cluster_bomb,
                    Vec2 { x: self.g_hardpoint_hummer_cluster_bomb_x, y: self.g_hardpoint_hummer_cluster_bomb_y },
                ),
                Weapon::Rockets => (
                    self.g_hardpoint_hummer_rockets,
                    Vec2 { x: self.g_hardpoint_hummer_rockets_x, y: self.g_hardpoint_hummer_rockets_y },
                ),
                Weapon::Hm => (
                    self.g_hardpoint_hummer_homing_missile,
                    Vec2 { x: self.g_hardpoint_hummer_homing_missile_x, y: self.g_hardpoint_hummer_homing_missile_y },
                ),
                Weapon::Gm => (
                    self.g_hardpoint_hummer_guided_missile,
                    Vec2 { x: self.g_hardpoint_hummer_guided_missile_x, y: self.g_hardpoint_hummer_guided_missile_y },
                ),
                Weapon::Bfg => (
                    self.g_hardpoint_hummer_bfg,
                    Vec2 { x: self.g_hardpoint_hummer_bfg_x, y: self.g_hardpoint_hummer_bfg_y },
                ),
            },
        }
    }

    /// The hitbox of this kind of vehicle.
    pub open spec fn vehicle_hitbox(&self, veh_type: VehicleType) -> Hitbox {
        match veh_type {
            VehicleType::Tank => Hitbox {
                mins: Vec2 { x: self.g_tank_mins_x, y: self.g_tank_mins_y },
                maxs: Vec2 { x: self.g_tank_maxs_x, y: self.g_tank_maxs_y },
            },
            VehicleType::Hovercraft => Hitbox {
                mins: Vec2 { x: self.g_hovercraft_mins_x, y: self.g_hovercraft_mins_y },
                maxs: Vec2 { x: self.g_hovercraft_maxs_x, y: self.g_hovercraft_maxs_y },
            },
            VehicleType::Hummer => Hitbox {
                mins: Vec2 { x: self.g_hummer_mins_x, y: self.g_hummer_mins_y },
                maxs: Vec2 { x: self.g_hummer_maxs_x, y: self.g_hummer_maxs_y },
            },
        }
    }

    /// The hitbox of this kind of vehicle.
    pub fn g_vehicle_hitbox(&self, veh_type: VehicleType) -> (r: Hitbox)
        ensures
            r == self.vehicle_hitbox(veh_type),
    {
        match veh_type {
            VehicleType::Tank => Hitbox {
                mins: Vec2 { x: self.g_tank_mins_x, y: self.g_tank_mins_y },
                maxs: Vec2 { x: self.g_tank_maxs_x, y: self.g_tank_maxs_y },
            },
            VehicleType::Hovercraft => Hitbox {
                mins: Vec2 { x: self.g_hovercraft_mins_x, y: self.g_hovercraft_mins_y },
                maxs: Vec2 { x: self.g_hovercraft_maxs_x, y: self.g_hovercraft_maxs_y },
            },
            VehicleType::Hummer => Hitbox {
                mins: Vec2 { x: self.g_hummer_mins_x, y: self.g_hummer_mins_y },
                maxs: Vec2 { x: self.g_hummer_maxs_x, y: self.g_hummer_maxs_y },
            },
        }
    }

    /// The armor scale of this kind of vehicle.
    pub open spec fn armor_scale(&self, veh_type: VehicleType) -> i64 {
        match veh_type {
            VehicleType::Tank => self.g_tank_armor_scale,
            VehicleType::Hovercraft => self.g_hovercraft_armor_scale,
            VehicleType::Hummer => self.g_hummer_armor_scale,
        }
    }

    /// The hit points of this kind of vehicle: the base armor times the
    /// kind's armor scale.
    pub open spec fn vehicle_hp(&self, veh_type: VehicleType) -> i64 {
        saturate(scaled_product(self.g_armor as int, self.armor_scale(veh_type) as int))
    }

    /// The hit points of this kind of vehicle.
    pub fn g_vehicle_hp(&self, veh_type: VehicleType) -> (r: i64)
        ensures
            r == self.vehicle_hp(veh_type),
    {
        let scale = match veh_type {
            VehicleType::Tank => self.g_tank_armor_scale,
            VehicleType::Hovercraft => self.g_hovercraft_armor_scale,
            VehicleType::Hummer => self.g_hummer_armor_scale,
        };
        times(self.g_armor, scale)
    }

    /// How this kind of vehicle moves.
    pub open spec fn vehicle_movement_stats(&self, veh_type: VehicleType) -> MovementStats {
        match veh_type {
            VehicleType::Tank => MovementStats {
                accel_backward: self.g_tank_accel_backward,
                accel_forward: self.g_tank_accel_forward,
                friction_const: self.g_tank_friction_const,
                friction_linear: self.g_tank_friction_linear,
                speed_max: self.g_tank_speed_max,
                steering_car: self.g_tank_steering_car,
                turn_effectiveness: self.g_tank_turn_effectiveness,
                turn_rate_friction_const: self.g_tank_turn_rate_friction_const,
                turn_rate_friction_linear: self.g_tank_turn_rate_friction_linear,
                turn_rate_increase: self.g_tank_turn_rate_increase,
                turn_rate_max: self.g_tank_turn_rate_max,
            },
            VehicleType::Hovercraft => MovementStats {
                accel_backward: self.g_hovercraft_accel_backward,
                accel_forward: self.g_hovercraft_accel_forward,
                friction_const: self.g_hovercraft_friction_const,
                friction_linear: self.g_hovercraft_friction_linear,
                speed_max: self.g_hovercraft_speed_max,
                steering_car: self.g_hovercraft_steering_car,
                turn_effectiveness: self.g_hovercraft_turn_effectiveness,
                turn_rate_friction_const: self.g_hovercraft_turn_rate_friction_const,
                turn_rate_friction_linear: self.g_hovercraft_turn_rate_friction_linear,
                turn_rate_increase: self.g_hovercraft_turn_rate_increase,
                turn_rate_max: self.g_hovercraft_turn_rate_max,
            },
            VehicleType::Hummer => MovementStats {
                accel_backward: self.g_hummer_accel_backward,
                accel_forward: self.g_hummer_accel_forward,
                friction_const: self.g_hummer_friction_const,
                friction_linear: self.g_hummer_friction_linear,
                speed_max: self.g_hummer_speed_max,
                steering_car: self.g_hummer_steering_car,
                turn_effectiveness: self.g_hummer_turn_effectiveness,
                turn_rate_friction_const: self.g_hummer_turn_rate_friction_const,
                turn_rate_friction_linear: self.g_hummer_turn_rate_friction_linear,
                turn_rate_increase: self.g_hummer_turn_rate_increase,
                turn_rate_max: self.g_hummer_turn_rate_max,
            },
        }
    }

    /// How this kind of vehicle moves.
    pub fn g_vehicle_movement_stats(&self, veh_type: VehicleType) -> (r: MovementStats)
        ensures
            r == self.vehicle_movement_stats(veh_type),
    {
        match veh_type {
            VehicleType::Tank => MovementStats {
                accel_backward: self.g_tank_accel_backward,
                accel_forward: self.g_tank_accel_forward,
                friction_const: self.g_tank_friction_const,
                friction_linear: self.g_tank_friction_linear,
                speed_max: self.g_tank_speed_max,
                steering_car: self.g_tank_steering_car,
                turn_effectiveness: self.g_tank_turn_effectiveness,
                turn_rate_friction_const: self.g_tank_turn_rate_friction_const,
                turn_rate_friction_linear: self.g_tank_turn_rate_friction_linear,
                turn_rate_increase: self.g_tank_turn_rate_increase,
                turn_rate_max: self.g_tank_turn_rate_max,
            },
            VehicleType::Hovercraft => MovementStats {
                accel_backward: self.g_hovercraft_accel_backward,
                accel_forward: self.g_hovercraft_accel_forward,
                friction_const: self.g_hovercraft_friction_const,
                friction_linear: self.g_hovercraft_friction_linear,
                speed_max: self.g_hovercraft_speed_max,
                steering_car: self.g_hovercraft_steering_car,
                turn_effectiveness: self.g_hovercraft_turn_effectiveness,
                turn_rate_friction_const: self.g_hovercraft_turn_rate_friction_const,
                turn_rate_friction_linear: self.g_hovercraft_turn_rate_friction_linear,
                turn_rate_increase: self.g_hovercraft_turn_rate_increase,
                turn_rate_max: self.g_hovercraft_turn_rate_max,
            },
            VehicleType::Hummer => MovementStats {
                accel_backward: self.g_hummer_accel_backward,
                accel_forward: self.g_hummer_accel_forward,
                friction_const: self.g_hummer_friction_const,
                friction_linear: self.g_hummer_friction_linear,
                speed_max: self.g_hummer_speed_max,
                steering_car: self.g_hummer_steering_car,
                turn_effectiveness: self.g_hummer_turn_effectiveness,
                turn_rate_friction_const: self.g_hummer_turn_rate_friction_const,
                turn_rate_friction_linear: self.g_hummer_turn_rate_friction_linear,
                turn_rate_increase: self.g_hummer_turn_rate_increase,
                turn_rate_max: self.g_hummer_turn_rate_max,
            },
        }
    }

    /// Where the joint of turret and chassis lies on the chassis.
    pub open spec fn vehicle_turret_offset_chassis(&self, veh_type: VehicleType) -> Vec2 {
        match veh_type {
            VehicleType::Tank => Vec2 {
                x: self.g_tank_turret_offset_chassis_x,
                y: self.g_tank_turret_offset_chassis_y,
            },
            VehicleType::Hovercraft => Vec2 {
                x: self.g_hovercraft_turret_offset_chassis_x,
                y: self.g_hovercraft_turret_offset_chassis_y,
            },
            VehicleType::Hummer => Vec2 {
                x: self.g_hummer_turret_offset_chassis_x,
                y: self.g_hummer_turret_offset_chassis_y,
            },
        }
    }

    /// Where the joint of turret and chassis lies on the chassis.
    pub fn g_vehicle_turret_offset_chassis(&self, veh_type: VehicleType) -> (r: Vec2)
        ensures
            r == self.vehicle_turret_offset_chassis(veh_type),
    {
        match veh_type {
            VehicleType::Tank => Vec2 {
                x: self.g_tank_turret_offset_chassis_x,
                y: self.g_tank_turret_offset_chassis_y,
            },
            VehicleType::Hovercraft => Vec2 {
                x: self.g_hovercraft_turret_offset_chassis_x,
                y: self.g_hovercraft_turret_offset_chassis_y,
            },
            VehicleType::Hummer => Vec2 {
                x: self.g_hummer_turret_offset_chassis_x,
                y: self.g_hummer_turret_offset_chassis_y,
            },
        }
    }

    /// Where the joint of turret and chassis lies on the turret.
    pub open spec fn vehicle_turret_offset_turret(&self, veh_type: VehicleType) -> Vec2 {
        match veh_type {
            VehicleType::Tank => Vec2 {
                x: self.g_tank_turret_offset_turret_x,
                y: self.g_tank_turret_offset_turret_y,
            },
            VehicleType::Hovercraft => Vec2 {
                x: self.g_hovercraft_turret_offset_turret_x,
                y: self.g_hovercraft_turret_offset_turret_y,
            },
            VehicleType::Hummer => Vec2 {
                x: self.g_hummer_turret_offset_turret_x,
                y: self.g_hummer_turret_offset_turret_y,
            },
        }
    }

    /// Where the joint of turret and chassis lies on the turret.
    pub fn g_vehicle_turret_offset_turret(&self, veh_type: VehicleType) -> (r: Vec2)
        ensures
            r == self.vehicle_turret_offset_turret(veh_type),
    {
        match veh_type {
            VehicleType::Tank => Vec2 {
                x: self.g_tank_turret_offset_turret_x,
                y: self.g_tank_turret_offset_turret_y,
            },
            VehicleType::Hovercraft => Vec2 {
                x: self.g_hovercraft_turret_offset_turret_x,
                y: self.g_hovercraft_turret_offset_turret_y,
            },
            VehicleType::Hummer => Vec2 {
                x: self.g_hummer_turret_offset_turret_x,
                y: self.g_hummer_turret_offset_turret_y,
            },
        }
    }

    /// The damage of a direct hit.
    pub open spec fn weapon_damage_direct(&self, weapon: Weapon) -> i64 {
        match weapon {
            Weapon::Mg => self.g_machine_gun_damage,
            Weapon::Rail => self.g_railgun_damage,
            Weapon::Cb => self.g_cluster_bomb_damage_direct,
            Weapon::Rockets => self.g_rockets_damage_direct,
            Weapon::Hm => self.g_homing_missile_damage_direct,
            Weapon::Gm => self.g_guided_missile_damage_direct,
            Weapon::Bfg => self.g_bfg_damage_direct,
        }
    }

    /// The damage of a direct hit.
    pub fn g_weapon_damage_direct(&self, weapon: Weapon) -> (r: i64)
        ensures
            r == self.weapon_damage_direct(weapon),
    {
        match weapon {
            Weapon::Mg => self.g_machine_gun_damage,
            Weapon::Rail => self.g_railgun_damage,
            Weapon::Cb => self.g_cluster_bomb_damage_direct,
            Weapon::Rockets => self.g_rockets_damage_direct,
            Weapon::Hm => self.g_homing_missile_damage_direct,
            Weapon::Gm => self.g_guided_missile_damage_direct,
            Weapon::Bfg => self.g_bfg_damage_direct,
        }
    }

    /// The damage of the weapon's blast; none for weapons without one.
    pub open spec fn weapon_explosion_damage(&self, weapon: Weapon) -> i64 {
        match weapon {
            Weapon::Mg => 0,
            Weapon::Rail => 0,
            Weapon::Cb => self.g_cluster_bomb_explosion_damage,
            Weapon::Rockets => self.g_rockets_explosion_damage,
            Weapon::Hm => self.g_homing_missile_explosion_damage,
            Weapon::Gm => self.g_guided_missile_explosion_damage,
            Weapon::Bfg => self.g_bfg_explosion_damage,
        }
    }

    /// The damage of the weapon's blast; none for weapons without one.
    pub fn g_weapon_explosion_damage(&self, weapon: Weapon) -> (r: i64)
        ensures
            r == self.weapon_explosion_damage(weapon),
    {
        match weapon {
            Weapon::Mg => 0,
            Weapon::Rail => 0,
            Weapon::Cb => self.g_cluster_bomb_explosion_damage,
            Weapon::Rockets => self.g_rockets_explosion_damage,
            Weapon::Hm => self.g_homing_missile_explosion_damage,
            Weapon::Gm => self.g_guided_missile_explosion_damage,
            Weapon::Bfg => self.g_bfg_explosion_damage,
        }
    }

    /// The radius of the weapon's blast; none for weapons without one.
    pub open spec fn weapon_explosion_radius(&self, weapon: Weapon) -> i64 {
        match weapon {
            Weapon::Mg => 0,
            Weapon::Rail => 0,
            Weapon::Cb => self.g_cluster_bomb_explosion_radius,
            Weapon::Rockets => self.g_rockets_explosion_radius,
            Weapon::Hm => self.g_homing_missile_explosion_radius,
            Weapon::Gm => self.g_guided_missile_explosion_radius,
            Weapon::Bfg => self.g_bfg_explosion_radius,
        }
    }

    /// The radius of the weapon's blast; none for weapons without one.
    pub fn g_weapon_explosion_radius(&self, weapon: Weapon) -> (r: i64)
        ensures
            r == self.weapon_explosion_radius(weapon),
    {
        match weapon {
            Weapon::Mg => 0,
            Weapon::Rail => 0,
            Weapon::Cb => self.g_cluster_bomb_explosion_radius,
            Weapon::Rockets => self.g_rockets_explosion_radius,
            Weapon::Hm => self.g_homing_missile_explosion_radius,
            Weapon::Gm => self.g_guided_missile_explosion_radius,
            Weapon::Bfg => self.g_bfg_explosion_radius,
        }
    }

    /// The size of the blast that is shown; none for weapons without one.
    pub open spec fn weapon_explosion_scale(&self, weapon: Weapon) -> i64 {
        match weapon {
            Weapon::Mg => 0,
            Weapon::Rail => 0,
            Weapon::Cb => self.g_cluster_bomb_explosion_scale,
            Weapon::Rockets => self.g_rockets_explosion_scale,
            Weapon::Hm => self.g_homing_missile_explosion_scale,
            Weapon::Gm => self.g_guided_missile_explosion_scale,
            Weapon::Bfg => self.g_bfg_explosion_scale,
        }
    }

    /// The size of the blast that is shown; none for weapons without one.
    pub fn g_weapon_explosion_scale(&self, weapon: Weapon) -> (r: i64)
        ensures
            r == self.weapon_explosion_scale(weapon),
    {
        match weapon {
            Weapon::Mg => 0,
            Weapon::Rail => 0,
            Weapon::Cb => self.g_cluster_bomb_explosion_scale,
            Weapon::Rockets => self.g_rockets_explosion_scale,
            Weapon::Hm => self.g_homing_missile_explosion_scale,
            Weapon::Gm => self.g_guided_missile_explosion_scale,
            Weapon::Bfg => self.g_bfg_explosion_scale,
        }
    }

    /// How a guided missile moves.
    pub open spec fn weapon_movement_stats(&self) -> MovementStats {
        MovementStats {
            accel_backward: 0,
            accel_forward: self.g_guided_missile_accel_forward,
            friction_const: self.g_guided_missile_friction_const,
            friction_linear: self.g_guided_missile_friction_linear,
            speed_max: self.g_guided_missile_speed_max,
            steering_car: 0,
            turn_effectiveness: self.g_guided_missile_turn_effectiveness,
            turn_rate_friction_const: self.g_guided_missile_turn_rate_friction_const,
            turn_rate_friction_linear: self.g_guided_missile_turn_rate_friction_linear,
            turn_rate_increase: self.g_guided_missile_turn_rate_increase,
            turn_rate_max: self.g_guided_missile_turn_rate_max,
        }
    }

    /// How a guided missile moves.
    pub fn g_weapon_movement_stats(&self) -> (r: MovementStats)
        ensures
            r == self.weapon_movement_stats(),
    {
        MovementStats {
            accel_backward: 0,
            accel_forward: self.g_guided_missile_accel_forward,
            friction_const: self.g_guided_missile_friction_const,
            friction_linear: self.g_guided_missile_friction_linear,
            speed_max: self.g_guided_missile_speed_max,
            steering_car: 0,
            turn_effectiveness: self.g_guided_missile_turn_effectiveness,
            turn_rate_friction_const: self.g_guided_missile_turn_rate_friction_const,
            turn_rate_friction_linear: self.g_guided_missile_turn_rate_friction_linear,
            turn_rate_increase: self.g_guided_missile_turn_rate_increase,
            turn_rate_max: self.g_guided_missile_turn_rate_max,
        }
    }

    /// The delay between two shots from one magazine.
    pub open spec fn weapon_refire(&self, weapon: Weapon) -> i64 {
        match weapon {
            Weapon::Mg => self.g_machine_gun_refire,
            Weapon::Rail => 0,
            Weapon::Cb => 0,
            Weapon::Rockets => self.g_rockets_refire,
            Weapon::Hm => 0,
            Weapon::Gm => 0,
            Weapon::Bfg => 0,
        }
    }

    /// The delay between two shots from one magazine.
    pub fn g_weapon_refire(&self, weapon: Weapon) -> (r: i64)
        ensures
            r == self.weapon_refire(weapon),
    {
        match weapon {
            Weapon::Mg => self.g_machine_gun_refire,
            Weapon::Rail => 0,
            Weapon::Cb => 0,
            Weapon::Rockets => self.g_rockets_refire,
            Weapon::Hm => 0,
            Weapon::Gm => 0,
            Weapon::Bfg => 0,
        }
    }

    /// The number of shots in a full magazine.
    pub open spec fn weapon_reload_ammo(&self, weapon: Weapon) -> u32 {
        match weapon {
            Weapon::Mg => self.g_machine_gun_reload_ammo,
            Weapon::Rail => self.g_railgun_reload_ammo,
            Weapon::Cb => self.g_cluster_bomb_reload_ammo,
            Weapon::Rockets => self.g_rockets_reload_ammo,
            Weapon::Hm => self.g_homing_missile_reload_ammo,
            Weapon::Gm => self.g_guided_missile_reload_ammo,
            Weapon::Bfg => self.g_bfg_reload_ammo,
        }
    }

    /// The number of shots in a full magazine.
    pub fn g_weapon_reload_ammo(&self, weapon: Weapon) -> (r: u32)
        ensures
            r == self.weapon_reload_ammo(weapon),
    {
        match weapon {
            Weapon::Mg => self.g_machine_gun_reload_ammo,
            Weapon::Rail => self.g_railgun_reload_ammo,
            Weapon::Cb => self.g_cluster_bomb_reload_ammo,
            Weapon::Rockets => self.g_rockets_reload_ammo,
            Weapon::Hm => self.g_homing_missile_reload_ammo,
            Weapon::Gm => self.g_guided_missile_reload_ammo,
            Weapon::Bfg => self.g_bfg_reload_ammo,
        }
    }

    /// The time it takes to reload.
    pub open spec fn weapon_reload_time(&self, weapon: Weapon) -> i64 {
        match weapon {
            Weapon::Mg => self.g_machine_gun_reload_time,
            Weapon::Rail => self.g_railgun_reload_time,
            Weapon::Cb => self.g_cluster_bomb_reload_time,
            Weapon::Rockets => self.g_rockets_reload_time,
            Weapon::Hm => self.g_homing_missile_reload_time,
            Weapon::Gm => self.g_guided_missile_reload_time,
            Weapon::Bfg => self.g_bfg_reload_time,
        }
    }

    /// The time it takes to reload.
    pub fn g_weapon_reload_time(&self, weapon: Weapon) -> (r: i64)
        ensures
            r == self.weapon_reload_time(weapon),
    {
        match weapon {
            Weapon::Mg => self.g_machine_gun_reload_time,
            Weapon::Rail => self.g_railgun_reload_time,
            Weapon::Cb => self.g_cluster_bomb_reload_time,
            Weapon::Rockets => self.g_rockets_reload_time,
            Weapon::Hm => self.g_homing_missile_reload_time,
            Weapon::Gm => self.g_guided_missile_reload_time,
            Weapon::Bfg => self.g_bfg_reload_time,
        }
    }

}

impl Default for Cvars {
    /// The standard balance.
    fn default() -> (r: Cvars)
        ensures
            r == Cvars::rec_wars(),
    {
        Cvars::new_rec_wars()
    }
}

} // verus!

//! Simulation core of a top-down vehicle-combat game: movement, weapon
//! state machines, projectile lifecycle and collision response, all in
//! saturating fixed-point arithmetic.

pub mod client;
pub mod components;
pub mod cvars;
pub mod debugging;
pub mod entities;
pub mod entity_store;
pub mod fixed;
pub mod game_state;
pub mod laws;
pub mod movement;
pub mod random;
pub mod shooting;
pub mod systems;
pub mod world;

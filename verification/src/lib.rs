//! The rules of a small top-down arcade shooter, with machine-checked
//! contracts.
//!
//! A player walks, dashes and shoots; enemies stand and shoot back; a
//! projectile that hits its target removes it, or sends the player back to
//! where it started. The engine that draws the game and moves its bodies is
//! not part of this crate. Once per tick the engine hands each system what it
//! read from its entity store, as plain values, and carries out what the
//! system answers:
//!
//! * [`player::player_system`] turns keys, pointer and elapsed time into the
//!   player's next state, velocity, dash impulse and projectile;
//! * [`enemy::enemy_system`] runs an enemy's fire cooldown;
//! * [`bullet::bullet_system`] removes projectiles that left the bounds and
//!   resolves the contacts that the physics step reported;
//! * [`camera::camera_system`] places the camera;
//! * [`gun::gun_system`] places the player's gun;
//! * [`wall::spawn_wall_colliders`] and the `bundle_entity` functions turn
//!   level data into descriptions of what to spawn.
//!
//! Two things come from outside. A timer is advanced by the engine's own
//! timer (see [`timer`]), and the length of an enemy's cooldown is drawn by
//! `rand` (see [`enemy`]). What the engine's timer does on a tick is stated
//! and relied on, not proved; of what is drawn nothing is assumed.
//!
//! All arithmetic is on integers. Positions and velocities are in world units
//! ([`vector::Vec2`]), directions in sixteen-bit fixed point
//! ([`vector::Direction`]) and times in nanoseconds ([`timer::Timer`]).
//!
//! The functions state in their contracts what they return and change,
//! and the lemmas next to the functions state what follows for the game:
//! that the collision table is symmetric, that a projectile out of bounds is
//! removed, that a hit player respawns, that an enemy fires once per cooldown.

pub mod bullet;
pub mod camera;
pub mod combat;
pub mod config;
pub mod enemy;
pub mod entity;
pub mod gun;
pub mod level;
pub mod player;
pub mod timer;
pub mod vector;
pub mod wall;

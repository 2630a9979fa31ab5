//! Fixed-timestep simulation core of a small 2D arcade shooter.
//!
//! Lengths are measured in thousandths of a pixel and time in milliseconds,
//! so a speed in pixels per second is also a distance per millisecond in
//! these units. The y axis points up: enemies start near the top edge and
//! move down towards the player's gate.
use vstd::prelude::*;

pub mod combat;
pub mod cooldown;
pub mod entities;
pub mod geometry;
pub mod session;
pub mod spawner;

verus! {

/// Player speed, in pixels per second.
pub const PLAYER_SPEED: i64 = 500;

/// Player height (50 pixels).
pub const PLAYER_HEIGHT: i64 = 50_000;

/// Player width (50 pixels).
pub const PLAYER_WIDTH: i64 = 50_000;

/// Bullet speed, in pixels per second.
pub const BULLET_SPEED: i64 = 200;

/// Bullet height (20 pixels).
pub const BULLET_HEIGHT: i64 = 20_000;

/// Bullet width (50 pixels).
pub const BULLET_WIDTH: i64 = 50_000;

/// Number of enemies the simulation keeps alive.
pub const ENEMY_COUNT: usize = 5;

/// Enemy speed, in pixels per second.
pub const ENEMY_SPEED: i64 = 100;

/// Enemy width (50 pixels).
pub const ENEMY_WIDTH: i64 = 50_000;

/// Enemy height (50 pixels).
pub const ENEMY_HEIGHT: i64 = 50_000;

/// Minimum time between two bullets, in milliseconds.
pub const BULLET_COOLDOWN_MS: u32 = 100;

} // verus!

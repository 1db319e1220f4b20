//! Gameplay rules of a small side-scrolling survival game: a three-state
//! game flow, a player that walks, jumps and dies on touching an enemy,
//! an enemy spawner whose interval shrinks with time, and a score timer.
//!
//! All quantities are integers. A position is counted in subpixels, a
//! velocity in subpixels per tick, so that one tick of motion is exact.

pub mod units;
pub mod timer;
pub mod animation;
pub mod gamestate;
pub mod physics;
pub mod player;
pub mod enemies;
pub mod score;
pub mod game;

pub use gamestate::{handle_gamestate, GameState, Input};
pub use units::{Transform, Vec2, Vec3, WinSize};

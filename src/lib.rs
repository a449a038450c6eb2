//! Movement and collision engine of a small tile-based platformer.
//!
//! Positions are fixed-point: one pixel is `SUBPIXELS` units and frame times
//! are microseconds, so every displacement `factor * curve[step] * delta` is
//! an exact integer.
pub mod geometry;
pub mod tilemap;
pub mod curves;
pub mod probe;
pub mod state;
pub mod animation;
pub mod playback;
pub mod motion;
pub mod player;
pub mod scene;
pub mod laws;

pub use animation::AnimState;
pub use curves::Curves;
pub use motion::{Body, CollisionMark, Input};
pub use player::{Player, Tick};
pub use scene::{Game, MainState};
pub use state::{Facing, GameState, JumpState, MoveState};
pub use tilemap::{Layer, Tilemap};

//! A deterministic, fixed-point simulation core for a two-player
//! ball-and-paddle game.

pub mod ball;
pub mod camera;
pub mod config;
pub mod fixed;
pub mod game;
pub mod player;
mod random;
pub mod step;
pub mod trig;
pub mod vector;

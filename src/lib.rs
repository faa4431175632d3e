//! Runtime core of a 2D physics platformer: character control, moving
//! platforms, level generation, checkpoints and the session state machine.
//!
//! All lengths are integers in thousandths of a pixel, all durations are
//! integers in microseconds and platform progress is kept in millionths.
pub mod geometry;
pub mod character_controller;
pub mod moving_platform;
pub mod assets;
pub mod levels;
pub mod session;
pub mod menu;

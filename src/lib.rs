//! Core logic of a small windowed GPU example: a fixed-timestep game state
//! driven by keyboard input, and the decisions behind loading a precompiled
//! shader from a binary and its resource-count metadata.

pub mod game;
pub mod game_laws;
pub mod shader;
pub mod teardown;

pub use game::{AppControl, GameState, InputEvent, Scancode};

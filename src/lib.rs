//! Core rules of a small tile-based game: grid geometry and collision,
//! player movement, the random-encounter timer, and the overworld/combat
//! state machine with its enter and exit hooks.

pub mod geometry;
pub mod input;
pub mod timer;
pub mod player;
pub mod game;
pub mod laws;

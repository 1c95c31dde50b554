//! A verified pebbles game: a user and a program alternately take pebbles
//! from a shared pile, and whoever takes the last pebble wins.
//!
//! The crate holds the game's data model, the program's move strategy and
//! the single-slot engine that applies a user's actions. Randomness is never
//! drawn here: each operation that needs it takes the drawn numbers as
//! arguments, so every outcome is a function of its inputs.

pub mod engine;
pub mod laws;
pub mod model;
pub mod strategy;

pub use engine::{open_game, take_turn, PebblesGame};
pub use model::{DifficultyLevel, GameError, GameState, PebblesAction, PebblesEvent, PebblesInit, Player};
pub use strategy::{first_player, program_turn, random_u32};

//! A two-party pebbles game: a human and an automated opponent take turns
//! removing pebbles from a pile, and whoever removes the last pebble wins.
//!
//! The crate holds the game's rules and nothing else. Whatever delivers
//! requests and replies, and whatever provides random bytes, stays with the
//! caller, who hands in plain values and gets plain values back.

pub mod game;
pub mod io;
pub mod laws;
pub mod random;
pub mod session;
pub mod strategy;

pub use io::{
    DifficultyLevel, GameState, PebblesAction, PebblesEvent, PebblesInit, Player, Rejection, Reply,
};
pub use session::Session;

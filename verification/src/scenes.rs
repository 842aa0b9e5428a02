//! The screens of the game.

pub mod mission;

//! Rules and data of a small tactical game: the soldiers that can be
//! fielded, the actions bound to the buttons of the mission screen, and the
//! open/closed state of its menu panels.
//!
//! Everything here works on plain values. Drawing, input and entity storage
//! belong to the game engine that hosts these rules.

pub mod actions;
pub mod scenes;
pub mod ui;
pub mod units;

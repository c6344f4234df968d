//! Rules of a Chronicles of Darkness character sheet: ranked traits, the
//! advantages derived from them, and the box trackers that record health,
//! willpower and experience beats.
#![allow(non_snake_case)]

pub mod advantages;
pub mod merits;
pub mod snapshot;
pub mod state;
pub mod tracks;
pub mod traits;

//! The hash calculator: four digests of what the user typed.

pub mod state;
pub mod update;

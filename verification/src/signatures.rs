//! The signature tool: it signs what the user typed with the key that the
//! user typed.

pub mod state;
pub mod update;

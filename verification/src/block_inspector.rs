//! The transaction inspector: it finds out which era's schema a serialized
//! transaction follows.

pub mod laws;
pub mod state;
pub mod update;
pub mod view;

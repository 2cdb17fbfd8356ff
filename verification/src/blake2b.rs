//! The BLAKE2b calculator: the digest of hex input, in 224 or 256 bits.

pub mod state;
pub mod update;

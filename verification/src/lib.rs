//! Verified logic of a workbench for Cardano transactions, encodings,
//! hashes and signatures.

pub mod blake2b;
pub mod block_inspector;
pub mod codec;
pub mod digest;
pub mod encoding;
pub mod hashes;
pub mod ledger;
pub mod signatures;
pub mod signing;
pub mod tabbed_pane_grid;
pub mod text;

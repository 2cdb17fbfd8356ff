use vstd::prelude::*;

verus! {

/// What the BLAKE2b calculator holds: the input in hex, the width of the
/// digest in bits, and the digest in hex.
#[derive(Debug)]
pub struct State {
    pub hex_contents: String,
    pub hash_length: usize,
    pub hash: String,
}

impl Default for State {
    /// No input, 256 bits, no digest.
    fn default() -> (r: State)
        ensures
            r.hex_contents@.len() == 0,
            r.hash_length == 256,
            r.hash@.len() == 0,
    {
        State { hex_contents: String::new(), hash_length: 256, hash: String::new() }
    }
}

} // verus!

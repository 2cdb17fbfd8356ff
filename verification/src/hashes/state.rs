use crate::encoding::Encoding;
use crate::text::{join_lines, joined, texts};
use vstd::prelude::*;

verus! {

/// What the hash calculator holds: the input, how to read it, and the
/// digests of it in hex.
#[derive(Debug)]
pub struct State {
    /// The lines of the input.
    pub contents: Vec<String>,
    /// The encoding that the user chose; `None` to have it detected.
    pub encoding: Option<Encoding>,
    pub warning: Option<String>,
    pub blake2b_256: String,
    pub blake2b_224: String,
    pub sha512: String,
    pub sha256: String,
}

impl State {
    /// The input as one text.
    pub open spec fn whole_text(self) -> Seq<char> {
        joined(texts(self.contents@))
    }

    /// Whether the four digests are blank.
    pub open spec fn cleared(self) -> bool {
        &&& self.blake2b_224@.len() == 0
        &&& self.blake2b_256@.len() == 0
        &&& self.sha512@.len() == 0
        &&& self.sha256@.len() == 0
    }

    /// The input as one text: its lines with a line feed between each two.
    pub fn text(&self) -> (r: String)
        ensures
            r@ == self.whole_text(),
    {
        join_lines(&self.contents)
    }
}

impl Default for State {
    /// No input, no encoding chosen, no warning, no digest.
    fn default() -> (r: State)
        ensures
            r.contents@.len() == 0,
            r.encoding is None,
            r.warning is None,
            r.cleared(),
    {
        State {
            contents: Vec::new(),
            encoding: None,
            warning: None,
            blake2b_256: String::new(),
            blake2b_224: String::new(),
            sha512: String::new(),
            sha256: String::new(),
        }
    }
}

} // verus!

use crate::blake2b::state::State;
use crate::codec::{hex_decode, hex_decoding, hex_encode, hex_text};
use crate::digest::{blake2b_224, blake2b_256, hash_blake2b_224, hash_blake2b_256};
use crate::text::{trim, trimmed};
use vstd::prelude::*;
use vstd::utf8::encode_utf8;

verus! {

/// What can happen to the BLAKE2b calculator.
#[derive(Debug, Clone)]
pub enum Message {
    /// The input was edited; this is its text now.
    HexChanged(String),
    LengthChanged(usize),
}

impl Message {
    /// The choice of width that the switch between the two widths stands
    /// for: 256 bits when it is on, 224 when it is off.
    pub fn width_switched(on: bool) -> (r: Message)
        ensures
            r == Message::LengthChanged(
                if on {
                    256usize
                } else {
                    224usize
                },
            ),
    {
        if on {
            Message::LengthChanged(256)
        } else {
            Message::LengthChanged(224)
        }
    }
}

impl State {
    /// Whether `after` is what `update_hash` makes of `self`.
    pub open spec fn hashed_to(self, after: State) -> bool {
        let input = trimmed(self.hex_contents@);
        &&& after.hex_contents == self.hex_contents
        &&& after.hash_length == self.hash_length
        &&& if input.len() == 0 {
            after.hash == self.hash
        } else {
            match hex_decoding(encode_utf8(input)) {
                Err(_) => after.hash@.len() == 0,
                Ok(bytes) => if self.hash_length == 224 {
                    after.hash@ == hex_text(blake2b_224(bytes))
                } else if self.hash_length == 256 {
                    after.hash@ == hex_text(blake2b_256(bytes))
                } else {
                    after.hash == self.hash
                },
            }
        }
    }

    /// Takes in an edit of the input or a choice of width, and computes the
    /// digest anew.
    pub fn update(&mut self, message: Message)
        ensures
            updated(*old(self), message, *final(self)),
    {
        match message {
            Message::HexChanged(text) => {
                self.hex_contents = text;
                self.update_hash();
            },
            Message::LengthChanged(bits) => {
                self.hash_length = bits;
                self.update_hash();
            },
        }
    }

    /// Computes the digest of the input.
    ///
    /// The input is read without the white space at its ends. Where nothing
    /// is left, or the width is neither 224 nor 256, the digest stays as it
    /// was. Input that is no hex blanks the digest.
    pub fn update_hash(&mut self)
        ensures
            old(self).hashed_to(*final(self)),
    {
        let input = trim(self.hex_contents.as_str());
        if input.is_empty() {
            return ;
        }
        let contents = match hex_decode(input.as_bytes()) {
            Ok(bytes) => bytes,
            Err(_) => {
                self.hash = String::new();
                return ;
            },
        };
        if self.hash_length == 224 {
            self.hash = hex_encode(hash_blake2b_224(contents.as_slice()).as_slice());
        } else if self.hash_length == 256 {
            self.hash = hex_encode(hash_blake2b_256(contents.as_slice()).as_slice());
        }
    }
}

/// Whether `after` is what `State::update` makes of `before` on `message`.
pub open spec fn updated(before: State, message: Message, after: State) -> bool {
    match message {
        Message::HexChanged(text) => (State { hex_contents: text, ..before }).hashed_to(after),
        Message::LengthChanged(bits) => (State { hash_length: bits, ..before }).hashed_to(after),
    }
}

} // verus!

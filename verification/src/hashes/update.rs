use crate::codec::{hex_encode, hex_text};
use crate::digest::{
    blake2b_224, blake2b_256, hash_blake2b_224, hash_blake2b_256, hash_sha256, hash_sha512,
    sha256, sha512,
};
use crate::encoding::{detect_encoding, detected, Encoding};
use crate::hashes::state::State;
use vstd::prelude::*;

verus! {

/// What can happen to the hash calculator.
#[derive(Debug, Clone)]
pub enum Message {
    /// The input was edited; these are its lines now.
    ContentsChanged(Vec<String>),
    EncodingSet(Encoding),
    CopyHash(String),
}

/// What the caller is to do after an update.
#[derive(Debug, Clone)]
pub enum Command {
    Nothing,
    /// Put the text on the clipboard.
    WriteClipboard(String),
}

/// Whether `after` and `command` are what `State::update` makes of `before`
/// on `message`.
pub open spec fn updated(before: State, message: Message, after: State, command: Command) -> bool {
    match message {
        Message::ContentsChanged(lines) => {
            &&& command is Nothing
            &&& (State { contents: lines, warning: None, ..before }).hashed_to(after)
        },
        Message::EncodingSet(encoding) => {
            &&& command is Nothing
            &&& (State { encoding: Some(encoding), warning: None, ..before }).hashed_to(after)
        },
        Message::CopyHash(text) => {
            &&& command == Command::WriteClipboard(text)
            &&& after == before
        },
    }
}

impl State {
    /// The encoding under which the input is read: the chosen one, or the
    /// one that the input looks like.
    pub open spec fn encoding_in_use(self) -> Encoding {
        match self.encoding {
            Some(e) => e,
            None => detected(self.whole_text()),
        }
    }

    /// Whether `after` is what `update_hashes` makes of `self`.
    pub open spec fn hashed_to(self, after: State) -> bool {
        &&& after.contents == self.contents
        &&& after.encoding == self.encoding
        &&& if self.whole_text().len() == 0 {
            &&& after.cleared()
            &&& after.warning is Some
            &&& after.warning->Some_0@ == "Empty String"@
        } else {
            match self.encoding_in_use().decoding(self.whole_text()) {
                Err(warning) => {
                    &&& after.cleared()
                    &&& after.warning is Some
                    &&& after.warning->Some_0@ == warning
                },
                Ok(bytes) => {
                    &&& after.warning == self.warning
                    &&& after.blake2b_224@ == hex_text(blake2b_224(bytes))
                    &&& after.blake2b_256@ == hex_text(blake2b_256(bytes))
                    &&& after.sha512@ == hex_text(sha512(bytes))
                    &&& after.sha256@ == hex_text(sha256(bytes))
                },
            }
        }
    }

    /// Takes in what happened and says what the caller is to do.
    ///
    /// An edit or a choice of encoding drops the warning and computes the
    /// digests anew. A request to copy changes nothing.
    pub fn update(&mut self, message: Message) -> (r: Command)
        ensures
            updated(*old(self), message, *final(self), r),
    {
        match message {
            Message::ContentsChanged(lines) => {
                self.warning = None;
                self.contents = lines;
                self.update_hashes();
                Command::Nothing
            },
            Message::EncodingSet(encoding) => {
                self.warning = None;
                self.encoding = Some(encoding);
                self.update_hashes();
                Command::Nothing
            },
            Message::CopyHash(text) => Command::WriteClipboard(text),
        }
    }

    /// Computes the four digests of the input.
    ///
    /// An empty input, or one that its encoding cannot read, blanks the
    /// digests and sets the warning. Else the digests are those of the
    /// decoded bytes, in lower-case hex, and the warning stays as it was.
    pub fn update_hashes(&mut self)
        ensures
            old(self).hashed_to(*final(self)),
    {
        let contents = self.text();
        if contents.as_str().is_empty() {
            self.clear_hashes();
            self.warning = Some(String::from_str("Empty String"));
            return ;
        }
        let encoding = match self.encoding {
            Some(e) => e,
            None => detect_encoding(contents.as_str()),
        };
        let bytes = match encoding.decode(contents.as_str()) {
            Ok(raw) => raw,
            Err(warning) => {
                self.warning = Some(warning);
                self.clear_hashes();
                return ;
            },
        };
        self.blake2b_224 = hex_encode(hash_blake2b_224(bytes.as_slice()).as_slice());
        self.blake2b_256 = hex_encode(hash_blake2b_256(bytes.as_slice()).as_slice());
        self.sha512 = hex_encode(hash_sha512(bytes.as_slice()).as_slice());
        self.sha256 = hex_encode(hash_sha256(bytes.as_slice()).as_slice());
    }

    /// Blanks the four digests.
    pub fn clear_hashes(&mut self)
        ensures
            final(self).cleared(),
            final(self).contents == old(self).contents,
            final(self).encoding == old(self).encoding,
            final(self).warning == old(self).warning,
    {
        self.blake2b_224 = String::new();
        self.blake2b_256 = String::new();
        self.sha512 = String::new();
        self.sha256 = String::new();
    }
}

} // verus!

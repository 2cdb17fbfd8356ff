use crate::block_inspector::state::{DecodeTxError, MultiEraTx, State};
use crate::codec::{hex_decode, hex_decoding, HexError};
use crate::text::{trim, trimmed};
use vstd::prelude::*;
use vstd::utf8::encode_utf8;

verus! {

/// What can happen to the inspector.
#[derive(Debug, Clone)]
pub enum Message {
    /// The request with this number was answered: with the transaction, or
    /// with nothing where the text holds none.
    TxDecoded(u64, Box<Option<MultiEraTx>>),
    /// The text was edited; this is what it reads now.
    TxCborChanged(String),
}

/// What the caller is to do after an update.
#[derive(Debug, Clone)]
pub enum Command {
    Nothing,
    /// Run `tx_decode` on `cbor`, away from the interactive path, and hand
    /// the answer back in `Message::TxDecoded` under the number `request`.
    Decode { request: u64, cbor: String },
}

/// Why a text gives no transaction.
#[derive(Debug, Clone, Copy, PartialEq, Eq, Structural)]
pub enum TxTextError {
    /// The text is no hex. Its bytes were never looked at as a transaction.
    HexDecodeError(HexError),
    /// The text is hex, but the bytes follow none of the four schemas.
    UnknownEncoding(DecodeTxError),
}

/// The number of the request that follows the request `n`.
pub open spec fn next_request(n: u64) -> u64 {
    if n == u64::MAX {
        0
    } else {
        (n + 1) as u64
    }
}

/// What `decode_text` makes of `text`: the white space at its ends is
/// dropped, the rest is read as hex, and the bytes are decoded as a
/// transaction.
pub open spec fn text_decoding(text: Seq<char>) -> Result<MultiEraTx, TxTextError> {
    match hex_decoding(encode_utf8(trimmed(text))) {
        Err(e) => Err(TxTextError::HexDecodeError(e)),
        Ok(bytes) => match MultiEraTx::decoding(bytes) {
            Ok(tx) => Ok(tx),
            Err(e) => Err(TxTextError::UnknownEncoding(e)),
        },
    }
}

/// Reads the transaction that `text` holds in hex, and tells a text that is
/// no hex from bytes that are no transaction.
pub fn decode_text(text: &str) -> (r: Result<MultiEraTx, TxTextError>)
    ensures
        r == text_decoding(text@),
{
    match hex_decode(trim(text).as_bytes()) {
        Err(e) => Err(TxTextError::HexDecodeError(e)),
        Ok(bytes) => match MultiEraTx::decode(bytes.as_slice()) {
            Ok(tx) => Ok(tx),
            Err(e) => Err(TxTextError::UnknownEncoding(e)),
        },
    }
}

/// Reads the transaction that `cbor` holds in hex. The answer is empty both
/// where the text is no hex and where the bytes are no transaction.
pub fn tx_decode(cbor: &str) -> (r: Box<Option<MultiEraTx>>)
    ensures
        *r == match text_decoding(cbor@) {
            Ok(tx) => Some(tx),
            Err(_) => None,
        },
{
    match decode_text(cbor) {
        Ok(tx) => Box::new(Some(tx)),
        Err(_) => Box::new(None),
    }
}

/// Whether `after` and `command` are what `State::update` makes of `before`
/// on `message`.
pub open spec fn updated(before: State, message: Message, after: State, command: Command) -> bool {
    match message {
        Message::TxCborChanged(text) => {
            &&& after.tx_cbor == text
            &&& after.latest_request == next_request(before.latest_request)
            &&& after.transaction == before.transaction
            &&& command matches Command::Decode { request, cbor }
            &&& request == after.latest_request
            &&& cbor@ == text@
        },
        Message::TxDecoded(request, answer) => {
            &&& command is Nothing
            &&& after.tx_cbor == before.tx_cbor
            &&& after.latest_request == before.latest_request
            &&& after.transaction == if request == before.latest_request {
                *answer
            } else {
                before.transaction
            }
        },
    }
}

impl State {
    /// Takes in what happened and says what the caller is to do.
    ///
    /// An edit stores the text and asks for it to be decoded, under the next
    /// request number; the transaction shown stays until the answer comes.
    /// An answer replaces the transaction as a whole if it carries the
    /// number of the latest request, and is dropped otherwise: an answer to
    /// a text that was edited since never overwrites a newer one.
    pub fn update(&mut self, message: Message) -> (r: Command)
        ensures
            updated(*old(self), message, *final(self), r),
    {
        match message {
            Message::TxDecoded(request, answer) => {
                if request == self.latest_request {
                    self.transaction = *answer;
                }
                Command::Nothing
            },
            Message::TxCborChanged(text) => {
                let cbor = text.clone();
                self.tx_cbor = text;
                self.latest_request = if self.latest_request == u64::MAX {
                    0
                } else {
                    self.latest_request + 1
                };
                Command::Decode { request: self.latest_request, cbor }
            },
        }
    }
}

} // verus!

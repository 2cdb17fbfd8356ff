//! Hex and base64, as the `hex` and `base64` crates read and write them.

use crate::text::decimal_text;
use base64::Engine;
use vstd::prelude::*;

verus! {

/// Why a text is no hex.
#[derive(Clone, Copy, Debug, PartialEq, Eq, Structural)]
pub enum HexError {
    /// The byte at `index`, shown as the character `c`, is no hex digit.
    InvalidHexCharacter { c: char, index: usize },
    /// The text has an odd number of bytes.
    OddLength,
    /// The text does not fill a container of fixed size. Decoding into a
    /// vector never gives this.
    InvalidStringLength,
}

/// Why a text is no base64.
#[derive(Clone, Copy, Debug, PartialEq, Eq, Structural)]
pub enum Base64Error {
    /// The byte at the offset is not of the alphabet, or is padding out of
    /// place.
    InvalidByte(usize, u8),
    /// The number of symbols cannot be that of an encoded text.
    InvalidLength(usize),
    /// The last symbol carries bits that no encoder would have set.
    InvalidLastSymbol(usize, u8),
    /// The padding is missing or is not the least that fits.
    InvalidPadding,
}

/// The value of the hex digit whose ASCII code is `b`; `None` for any other
/// byte.
pub open spec fn hex_value(b: u8) -> Option<u8> {
    if 0x30 <= b <= 0x39 {
        Some((b - 0x30) as u8)
    } else if 0x61 <= b <= 0x66 {
        Some((b - 0x61 + 10) as u8)
    } else if 0x41 <= b <= 0x46 {
        Some((b - 0x41 + 10) as u8)
    } else {
        None
    }
}

/// The place of the first byte of `text` that is no hex digit.
pub open spec fn bad_hex_index(text: Seq<u8>) -> Option<int>
    decreases text.len(),
{
    if text.len() == 0 {
        None
    } else {
        match bad_hex_index(text.drop_last()) {
            Some(i) => Some(i),
            None => if hex_value(text.last()) is None {
                Some(text.len() - 1)
            } else {
                None
            },
        }
    }
}

/// The bytes that the pairs of hex digits in `text` stand for.
pub open spec fn hex_bytes(text: Seq<u8>) -> Seq<u8> {
    Seq::new(
        text.len() / 2,
        |i: int| (16 * hex_value(text[2 * i])->Some_0 + hex_value(text[2 * i + 1])->Some_0) as u8,
    )
}

/// What decoding `text` as hex gives: the bytes, if `text` is an even number
/// of hex digits in either case; else the first fault.
pub open spec fn hex_decoding(text: Seq<u8>) -> Result<Seq<u8>, HexError> {
    if text.len() % 2 != 0 {
        Err(HexError::OddLength)
    } else {
        match bad_hex_index(text) {
            Some(i) => Err(HexError::InvalidHexCharacter { c: text[i] as char, index: i as usize }),
            None => Ok(hex_bytes(text)),
        }
    }
}

/// The lower-case hex digit for `nibble`.
pub open spec fn hex_char(nibble: int) -> char {
    seq!['0', '1', '2', '3', '4', '5', '6', '7', '8', '9', 'a', 'b', 'c', 'd', 'e', 'f'][nibble]
}

/// `bytes` in lower-case hex, two digits for each byte.
pub open spec fn hex_text(bytes: Seq<u8>) -> Seq<char> {
    Seq::new(
        2 * bytes.len(),
        |i: int|
            if i % 2 == 0 {
                hex_char(bytes[i / 2] as int / 16)
            } else {
                hex_char(bytes[i / 2] as int % 16)
            },
    )
}

/// What `Debug` writes for a character: the character between single
/// quotes, escaped where it would not show.
pub uninterp spec fn char_debug_text(c: char) -> Seq<char>;

/// What `Display` writes for a hex error.
pub open spec fn hex_error_text(e: HexError) -> Seq<char> {
    match e {
        HexError::InvalidHexCharacter { c, index } => "Invalid character "@ + char_debug_text(c)
            + " at position "@ + decimal_text(index as nat),
        HexError::OddLength => "Odd number of digits"@,
        HexError::InvalidStringLength => "Invalid string length"@,
    }
}

/// What `Display` writes for a base64 error.
pub open spec fn base64_error_text(e: Base64Error) -> Seq<char> {
    match e {
        Base64Error::InvalidByte(offset, byte) => "Invalid symbol "@ + decimal_text(byte as nat)
            + ", offset "@ + decimal_text(offset as nat) + "."@,
        Base64Error::InvalidLength(len) => "Invalid input length: "@ + decimal_text(len as nat),
        Base64Error::InvalidLastSymbol(offset, byte) => "Invalid last symbol "@ + decimal_text(
            byte as nat,
        ) + ", offset "@ + decimal_text(offset as nat) + "."@,
        Base64Error::InvalidPadding => "Invalid padding"@,
    }
}

/// What the standard base64 engine, which asks for canonical padding, makes
/// of `text`.
pub uninterp spec fn base64_decoding(text: Seq<u8>) -> Result<Seq<u8>, Base64Error>;

/// `bad_hex_index` finds the first byte that is no hex digit: the byte at
/// the index that it gives is none, every byte before it is one, and it
/// gives none only where every byte is a digit.
pub proof fn bad_hex_index_is_first(text: Seq<u8>)
    ensures
        match bad_hex_index(text) {
            Some(i) => {
                &&& 0 <= i < text.len()
                &&& hex_value(text[i]) is None
                &&& forall|j: int| 0 <= j < i ==> hex_value(#[trigger] text[j]) is Some
            },
            None => forall|j: int| 0 <= j < text.len() ==> hex_value(#[trigger] text[j]) is Some,
        },
    decreases text.len(),
{
    if text.len() > 0 {
        let front = text.drop_last();
        bad_hex_index_is_first(front);
        assert(forall|j: int| 0 <= j < front.len() ==> front[j] == text[j]);
    }
}

/// Hex decoding succeeds exactly on an even number of hex digits, and then
/// gives half as many bytes.
pub proof fn hex_decoding_succeeds_on_digits(text: Seq<u8>)
    ensures
        hex_decoding(text) is Ok <==> text.len() % 2 == 0 && forall|j: int|
            0 <= j < text.len() ==> hex_value(#[trigger] text[j]) is Some,
        hex_decoding(text) matches Ok(bytes) ==> 2 * bytes.len() == text.len(),
{
    bad_hex_index_is_first(text);
}

impl HexError {
    /// What the error says.
    pub fn to_string(&self) -> (r: String)
        ensures
            r@ == hex_error_text(*self),
    {
        hex_error_string(*self)
    }
}

impl Base64Error {
    /// What the error says.
    pub fn to_string(&self) -> (r: String)
        ensures
            r@ == base64_error_text(*self),
    {
        base64_error_string(*self)
    }
}

/// `hex::decode`.
///
/// Trusted: an odd length is refused first; else the pairs are read from the
/// left, digits of either case, and the first byte that is no digit is
/// reported with its place.
#[verifier::external_body]
pub(crate) fn hex_decode(text: &[u8]) -> (r: Result<Vec<u8>, HexError>)
    ensures
        match r {
            Ok(bytes) => hex_decoding(text@) == Ok::<Seq<u8>, HexError>(bytes@),
            Err(e) => hex_decoding(text@) == Err::<Seq<u8>, HexError>(e),
        },
{
    match hex::decode(text) {
        Ok(bytes) => Ok(bytes),
        Err(hex::FromHexError::InvalidHexCharacter { c, index }) => Err(
            HexError::InvalidHexCharacter { c, index },
        ),
        Err(hex::FromHexError::OddLength) => Err(HexError::OddLength),
        Err(hex::FromHexError::InvalidStringLength) => Err(HexError::InvalidStringLength),
    }
}

/// `hex::encode`.
///
/// Trusted: each byte gives two lower-case digits, the high half first.
#[verifier::external_body]
pub(crate) fn hex_encode(bytes: &[u8]) -> (r: String)
    ensures
        r@ == hex_text(bytes@),
{
    hex::encode(bytes)
}

/// `Display` of `hex::FromHexError`.
///
/// Trusted: the three texts, with the character as `Debug` writes it and
/// the position in decimal.
#[verifier::external_body]
pub(crate) fn hex_error_string(e: HexError) -> (r: String)
    ensures
        r@ == hex_error_text(e),
        e matches HexError::InvalidHexCharacter { c, index } ==> r@ == "Invalid character "@
            + char_debug_text(c) + " at position "@ + decimal_text(index as nat),
{
    let outside = match e {
        HexError::InvalidHexCharacter { c, index } => hex::FromHexError::InvalidHexCharacter {
            c,
            index,
        },
        HexError::OddLength => hex::FromHexError::OddLength,
        HexError::InvalidStringLength => hex::FromHexError::InvalidStringLength,
    };
    outside.to_string()
}

/// `Engine::decode` of `base64::prelude::BASE64_STANDARD`.
///
/// Trusted: the result is a function of the text alone.
#[verifier::external_body]
pub(crate) fn base64_decode(text: &[u8]) -> (r: Result<Vec<u8>, Base64Error>)
    ensures
        match r {
            Ok(bytes) => base64_decoding(text@) == Ok::<Seq<u8>, Base64Error>(bytes@),
            Err(e) => base64_decoding(text@) == Err::<Seq<u8>, Base64Error>(e),
        },
{
    match base64::prelude::BASE64_STANDARD.decode(text) {
        Ok(bytes) => Ok(bytes),
        Err(base64::DecodeError::InvalidByte(offset, byte)) => Err(
            Base64Error::InvalidByte(offset, byte),
        ),
        Err(base64::DecodeError::InvalidLength(len)) => Err(Base64Error::InvalidLength(len)),
        Err(base64::DecodeError::InvalidLastSymbol(offset, byte)) => Err(
            Base64Error::InvalidLastSymbol(offset, byte),
        ),
        Err(base64::DecodeError::InvalidPadding) => Err(Base64Error::InvalidPadding),
    }
}

/// `Display` of `base64::DecodeError`.
///
/// Trusted: the four texts, with the numbers in decimal.
#[verifier::external_body]
pub(crate) fn base64_error_string(e: Base64Error) -> (r: String)
    ensures
        r@ == base64_error_text(e),
{
    let outside = match e {
        Base64Error::InvalidByte(offset, byte) => base64::DecodeError::InvalidByte(offset, byte),
        Base64Error::InvalidLength(len) => base64::DecodeError::InvalidLength(len),
        Base64Error::InvalidLastSymbol(offset, byte) => base64::DecodeError::InvalidLastSymbol(
            offset,
            byte,
        ),
        Base64Error::InvalidPadding => base64::DecodeError::InvalidPadding,
    };
    outside.to_string()
}

} // verus!

//! How the text that a user typed is to be read: as hex, as base64 or as it
//! stands.

use crate::codec::{
    base64_decode, base64_decoding, base64_error_text, hex_decode, hex_decoding,
    hex_decoding_succeeds_on_digits, hex_error_text, hex_value,
};
use crate::text::{strip_newlines, without_newlines};
use vstd::prelude::*;
use vstd::utf8::{
    char_is_scalar, char_u32_cast, encode_scalar, encode_utf8, has_width_1_encoding,
    is_ascii_chars, is_ascii_chars_encode_utf8,
};

verus! {

/// A way to turn text into bytes.
#[derive(Clone, Copy, Debug, PartialEq, Eq, Structural)]
pub enum Encoding {
    UTF8,
    Hex,
    Base64,
}

/// The pattern of padded base64 text: groups of four characters of the
/// alphabet, the last of which may end in one or two `=`.
pub const BASE64_PATTERN: &'static str =
    "^([A-Za-z0-9+/]{4})*([A-Za-z0-9+/]{3}=|[A-Za-z0-9+/]{2}==)?$";

/// Whether `c` is one of `0-9`, `a-f`, `A-F`.
pub open spec fn is_hex_digit(c: char) -> bool {
    ('0' <= c && c <= '9') || ('a' <= c && c <= 'f') || ('A' <= c && c <= 'F')
}

/// Whether `text` is an even number of hex digits.
pub open spec fn is_hex_text(text: Seq<char>) -> bool {
    &&& text.len() % 2 == 0
    &&& forall|i: int| 0 <= i < text.len() ==> is_hex_digit(#[trigger] text[i])
}

/// Whether `c` belongs to the standard base64 alphabet.
pub open spec fn is_base64_char(c: char) -> bool {
    ('A' <= c && c <= 'Z') || ('a' <= c && c <= 'z') || ('0' <= c && c <= '9') || c == '+' || c
        == '/'
}

/// Whether `text` has the shape of padded base64: its length is a multiple of
/// four, and all of it is of the alphabet but for one or two `=` at the end.
pub open spec fn is_base64_text(text: Seq<char>) -> bool {
    let n = text.len() as int;
    &&& n % 4 == 0
    &&& forall|i: int| 0 <= i < n - 2 ==> is_base64_char(#[trigger] text[i])
    &&& n > 0 ==> {
        ||| is_base64_char(text[n - 2]) && is_base64_char(text[n - 1])
        ||| is_base64_char(text[n - 2]) && text[n - 1] == '='
        ||| text[n - 2] == '=' && text[n - 1] == '='
    }
}

/// The encoding that `detect_encoding` finds in `text`.
pub open spec fn detected(text: Seq<char>) -> Encoding {
    if is_hex_text(without_newlines(text)) {
        Encoding::Hex
    } else if is_base64_text(without_newlines(text)) {
        Encoding::Base64
    } else {
        Encoding::UTF8
    }
}

impl Encoding {
    /// The encodings in the order in which a user is offered them.
    pub const ALL: [Encoding; 3] = [Encoding::Hex, Encoding::Base64, Encoding::UTF8];

    /// The name under which the encoding is shown.
    pub open spec fn label(self) -> Seq<char> {
        match self {
            Encoding::UTF8 => "UTF8"@,
            Encoding::Hex => "Hex"@,
            Encoding::Base64 => "Base64"@,
        }
    }

    /// What `decode` makes of `text`: its bytes, or the warning to show.
    /// Hex and base64 are read with the line feeds taken out; plain text
    /// gives its UTF-8 bytes.
    pub open spec fn decoding(self, text: Seq<char>) -> Result<Seq<u8>, Seq<char>> {
        let packed = encode_utf8(without_newlines(text));
        match self {
            Encoding::Hex => match hex_decoding(packed) {
                Ok(bytes) => Ok(bytes),
                Err(e) => Err("Invalid hex: "@ + hex_error_text(e)),
            },
            Encoding::Base64 => match base64_decoding(packed) {
                Ok(bytes) => Ok(bytes),
                Err(e) => Err("Invalid base64: "@ + base64_error_text(e)),
            },
            Encoding::UTF8 => Ok(encode_utf8(text)),
        }
    }

    /// Turns `text` into bytes, or says in a warning why it cannot.
    pub fn decode(&self, text: &str) -> (r: Result<Vec<u8>, String>)
        ensures
            match r {
                Ok(bytes) => self.decoding(text@) == Ok::<Seq<u8>, Seq<char>>(bytes@),
                Err(warning) => self.decoding(text@) == Err::<Seq<u8>, Seq<char>>(warning@),
            },
    {
        match self {
            Encoding::Hex => {
                let packed = strip_newlines(text);
                match hex_decode(packed.as_str().as_bytes()) {
                    Ok(bytes) => Ok(bytes),
                    Err(e) => {
                        let mut warning = String::from_str("Invalid hex: ");
                        warning.append(e.to_string().as_str());
                        Err(warning)
                    },
                }
            },
            Encoding::Base64 => {
                let packed = strip_newlines(text);
                match base64_decode(packed.as_str().as_bytes()) {
                    Ok(bytes) => Ok(bytes),
                    Err(e) => {
                        let mut warning = String::from_str("Invalid base64: ");
                        warning.append(e.to_string().as_str());
                        Err(warning)
                    },
                }
            },
            Encoding::UTF8 => Ok(text.as_bytes_vec()),
        }
    }

    /// The name under which the encoding is shown.
    pub fn to_string(&self) -> (r: String)
        ensures
            r@ == self.label(),
    {
        match self {
            Encoding::UTF8 => String::from_str("UTF8"),
            Encoding::Hex => String::from_str("Hex"),
            Encoding::Base64 => String::from_str("Base64"),
        }
    }
}

/// `Regex::new` on `pattern`, then `Regex::is_match` on `text`.
///
/// Trusted: the pattern is `BASE64_PATTERN`, which the regex syntax accepts,
/// and which matches, from the first character to the last, any number of
/// groups of four characters of the alphabet, followed or not by a group that
/// ends in one or two `=`. That is `is_base64_text`.
#[verifier::external_body]
fn pattern_matches(pattern: &str, text: &str) -> (r: bool)
    requires
        pattern@ == BASE64_PATTERN@,
    ensures
        r == is_base64_text(text@),
{
    regex::Regex::new(pattern).unwrap().is_match(text)
}

/// Whether `c` is a hex digit.
pub fn hex_digit(c: char) -> (r: bool)
    ensures
        r == is_hex_digit(c),
{
    ('0' <= c && c <= '9') || ('a' <= c && c <= 'f') || ('A' <= c && c <= 'F')
}

/// Whether `s`, its line feeds taken out, is an even number of hex digits.
pub fn looks_hex(s: &str) -> (r: bool)
    ensures
        r == is_hex_text(without_newlines(s@)),
{
    let stripped = strip_newlines(s);
    let ghost all = stripped@;
    let mut even = true;
    let mut digits = true;
    for c in it: stripped.as_str().chars()
        invariant
            it.seq() == all,
            even == (it.index() % 2 == 0),
            digits == (forall|i: int| 0 <= i < it.index() ==> is_hex_digit(#[trigger] all[i])),
    {
        even = !even;
        if !hex_digit(c) {
            digits = false;
        }
    }
    even && digits
}

/// Whether `s`, its line feeds taken out, has the shape of padded base64.
pub fn looks_base64(s: &str) -> (r: bool)
    ensures
        r == is_base64_text(without_newlines(s@)),
{
    let stripped = strip_newlines(s);
    pattern_matches(BASE64_PATTERN, stripped.as_str())
}

/// Guesses how `s` is encoded: hex where it looks like hex, else base64
/// where it looks like base64, else plain text.
pub fn detect_encoding(s: &str) -> (r: Encoding)
    ensures
        r == detected(s@),
{
    if looks_hex(s) {
        Encoding::Hex
    } else if looks_base64(s) {
        Encoding::Base64
    } else {
        Encoding::UTF8
    }
}

/// Text that looks like hex is hex: read as such, it gives bytes and no
/// warning, one byte for each two digits.
pub proof fn text_that_looks_like_hex_is_read(text: Seq<char>)
    requires
        is_hex_text(without_newlines(text)),
    ensures
        Encoding::Hex.decoding(text) is Ok,
        2 * Encoding::Hex.decoding(text)->Ok_0.len() == without_newlines(text).len(),
{
    let digits = without_newlines(text);
    let packed = encode_utf8(digits);
    assert(is_ascii_chars(digits)) by {
        assert forall|i: int| 0 <= i < digits.len() implies '\0' <= #[trigger] digits[i]
            <= '\u{7f}' by {
            assert(is_hex_digit(digits[i]));
        }
    }
    is_ascii_chars_encode_utf8(digits);
    assert forall|j: int| 0 <= j < packed.len() implies hex_value(#[trigger] packed[j]) is Some by {
        assert(is_hex_digit(digits[j]));
        assert(packed[j] == digits[j] as u8);
    }
    hex_decoding_succeeds_on_digits(packed);
}

/// Characters whose UTF-8 encoding holds no byte above 0x7f are ASCII.
proof fn ascii_bytes_come_from_ascii_chars(chars: Seq<char>)
    requires
        forall|j: int|
            0 <= j < encode_utf8(chars).len() ==> #[trigger] encode_utf8(chars)[j] < 0x80,
    ensures
        is_ascii_chars(chars),
    decreases chars.len(),
{
    if chars.len() > 0 {
        let first = chars[0] as u32;
        char_is_scalar(chars[0]);
        let head = encode_scalar(first);
        let rest = encode_utf8(chars.drop_first());
        let all = encode_utf8(chars);
        assert(all == head + rest);
        assert(head.len() >= 1);
        assert(all[0] == head[0]);
        assert(all[0] < 0x80);
        assert(has_width_1_encoding(first)) by {
            assert(0xC0u8 | ((first >> 6) & 0x1F) as u8 >= 0x80) by (bit_vector);
            assert(0xE0u8 | ((first >> 12) & 0x0F) as u8 >= 0x80) by (bit_vector);
            assert(0xF0u8 | ((first >> 18) & 0x7) as u8 >= 0x80) by (bit_vector);
        }
        assert forall|j: int| 0 <= j < rest.len() implies #[trigger] rest[j] < 0x80 by {
            assert(all[head.len() + j] == rest[j]);
        }
        ascii_bytes_come_from_ascii_chars(chars.drop_first());
        assert forall|i: int| 0 <= i < chars.len() implies '\0' <= #[trigger] chars[i]
            <= '\u{7f}' by {
            if i > 0 {
                assert(chars.drop_first()[i - 1] == chars[i]);
            } else {
                char_u32_cast(chars[0], first);
            }
        }
    }
}

/// `looks_hex` says whether reading the text as hex succeeds: the text is
/// an even number of hex digits, once its line feeds are out, exactly where
/// the hex codec gives bytes for it.
pub proof fn looks_like_hex_iff_read_as_hex(text: Seq<char>)
    ensures
        is_hex_text(without_newlines(text)) <==> Encoding::Hex.decoding(text) is Ok,
{
    let digits = without_newlines(text);
    let packed = encode_utf8(digits);
    if is_hex_text(digits) {
        text_that_looks_like_hex_is_read(text);
    }
    if Encoding::Hex.decoding(text) is Ok {
        hex_decoding_succeeds_on_digits(packed);
        assert forall|j: int| 0 <= j < packed.len() implies #[trigger] packed[j] < 0x80 by {
            assert(hex_value(packed[j]) is Some);
        }
        ascii_bytes_come_from_ascii_chars(digits);
        is_ascii_chars_encode_utf8(digits);
        assert forall|i: int| 0 <= i < digits.len() implies is_hex_digit(#[trigger] digits[i]) by {
            assert(hex_value(packed[i]) is Some);
            assert(packed[i] == digits[i] as u8);
        }
    }
}

/// Where the encoding is left to detection and hex is found, the text is
/// read without a warning.
pub proof fn detected_hex_is_read(text: Seq<char>)
    requires
        detected(text) == Encoding::Hex,
    ensures
        detected(text).decoding(text) is Ok,
{
    text_that_looks_like_hex_is_read(text);
}

/// Plain text is always read: it gives its UTF-8 bytes.
pub proof fn plain_text_is_always_read(text: Seq<char>)
    ensures
        Encoding::UTF8.decoding(text) == Ok::<Seq<u8>, Seq<char>>(encode_utf8(text)),
{
}

} // verus!

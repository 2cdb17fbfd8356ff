//! Text helpers that the tools share.

use vstd::prelude::*;

verus! {

/// The characters that `strip_newlines` keeps: all but the line feed.
pub open spec fn kept() -> spec_fn(char) -> bool {
    |c: char| c != '\n'
}

/// `text` without its line feeds.
pub open spec fn without_newlines(text: Seq<char>) -> Seq<char> {
    text.filter(kept())
}

/// `String::push`.
///
/// Trusted: the character is appended and nothing else changes.
#[verifier::external_body]
pub(crate) fn push_char(text: &mut String, c: char)
    ensures
        final(text)@ == old(text)@.push(c),
{
    text.push(c)
}

/// Removes every line feed from `text`.
pub fn strip_newlines(text: &str) -> (r: String)
    ensures
        r@ == without_newlines(text@),
{
    let mut out = String::new();
    let ghost all = text@;
    for c in it: text.chars()
        invariant
            it.seq() == all,
            out@ == without_newlines(all.take(it.index() as int)),
    {
        proof {
            let done = all.take(it.index() as int);
            assert(all.take(it.index() + 1) == done.push(c));
            done.lemma_filter_push(c, kept());
        }
        if c != '\n' {
            push_char(&mut out, c);
        }
    }
    assert(all.take(all.len() as int) == all);
    out
}

/// The character that stands for the digit `d`.
pub open spec fn digit_char(d: int) -> char {
    seq!['0', '1', '2', '3', '4', '5', '6', '7', '8', '9'][d]
}

/// `n` written in decimal, without leading zeros.
pub open spec fn decimal_text(n: nat) -> Seq<char>
    decreases n,
{
    if n < 10 {
        seq![digit_char(n as int)]
    } else {
        decimal_text(n / 10).push(digit_char((n % 10) as int))
    }
}

/// The character that stands for the digit `d`.
fn digit(d: u8) -> (c: char)
    requires
        d < 10,
    ensures
        c == digit_char(d as int),
{
    if d == 0 {
        '0'
    } else if d == 1 {
        '1'
    } else if d == 2 {
        '2'
    } else if d == 3 {
        '3'
    } else if d == 4 {
        '4'
    } else if d == 5 {
        '5'
    } else if d == 6 {
        '6'
    } else if d == 7 {
        '7'
    } else if d == 8 {
        '8'
    } else {
        '9'
    }
}

/// Writes `n` in decimal.
pub fn decimal(n: u64) -> (r: String)
    ensures
        r@ == decimal_text(n as nat),
    decreases n,
{
    if n < 10 {
        let mut out = String::new();
        push_char(&mut out, digit(n as u8));
        assert(out@ == seq![digit_char(n as int)]);
        out
    } else {
        let mut out = decimal(n / 10);
        push_char(&mut out, digit((n % 10) as u8));
        out
    }
}

/// The texts of a list of strings.
pub open spec fn texts(lines: Seq<String>) -> Seq<Seq<char>> {
    lines.map_values(|line: String| line@)
}

/// The lines with a line feed between each two of them.
pub open spec fn joined(lines: Seq<Seq<char>>) -> Seq<char>
    decreases lines.len(),
{
    if lines.len() == 0 {
        Seq::empty()
    } else if lines.len() == 1 {
        lines[0]
    } else {
        joined(lines.drop_last()).push('\n') + lines.last()
    }
}

/// Puts the lines together, with a line feed between each two of them.
pub fn join_lines(lines: &Vec<String>) -> (r: String)
    ensures
        r@ == joined(texts(lines@)),
{
    let mut out = String::new();
    let mut i: usize = 0;
    while i < lines.len()
        invariant
            i <= lines.len(),
            out@ == joined(texts(lines@).take(i as int)),
        decreases lines.len() - i,
    {
        let ghost before = texts(lines@).take(i as int);
        let ghost after = texts(lines@).take(i + 1);
        assert(after.drop_last() == before);
        assert(after.last() == lines@[i as int]@);
        if i > 0 {
            push_char(&mut out, '\n');
        }
        out.append(lines[i].as_str());
        assert(out@ == joined(after)) by {
            if i == 0 {
                assert(before.len() == 0);
                assert(out@ == lines@[0]@);
            }
        }
        i += 1;
    }
    assert(texts(lines@).take(lines.len() as int) == texts(lines@));
    out
}

/// Whether `c` is white space to Unicode.
pub uninterp spec fn is_white_space(c: char) -> bool;

/// `text` without the white space at its two ends.
pub open spec fn trimmed(text: Seq<char>) -> Seq<char>
    decreases text.len(),
{
    if text.len() > 0 && is_white_space(text[0]) {
        trimmed(text.drop_first())
    } else if text.len() > 0 && is_white_space(text.last()) {
        trimmed(text.drop_last())
    } else {
        text
    }
}

/// `str::trim`.
///
/// Trusted: the result is the text without the characters at its start and
/// at its end that have the Unicode property White_Space.
#[verifier::external_body]
pub(crate) fn trim<'a>(text: &'a str) -> (r: &'a str)
    ensures
        r@ == trimmed(text@),
        r@.len() > 0 ==> !is_white_space(r@.first()) && !is_white_space(r@.last()),
{
    text.trim()
}

} // verus!

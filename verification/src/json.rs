//! Quoted JSON strings with their escapes.

use vstd::prelude::*;
use crate::text::{digit_char, hex_digit};

verus! {

/// What stands for one character inside a quoted JSON string: the quote and
/// the backslash get a backslash in front, the control characters below
/// U+0020 their short escape or `\u00` and two hexadecimal digits, and every
/// other character stands for itself.
pub open spec fn escape_char(ch: char) -> Seq<char> {
    if ch == '"' {
        seq!['\\', '"']
    } else if ch == '\\' {
        seq!['\\', '\\']
    } else if ch == '\u{8}' {
        seq!['\\', 'b']
    } else if ch == '\t' {
        seq!['\\', 't']
    } else if ch == '\n' {
        seq!['\\', 'n']
    } else if ch == '\u{c}' {
        seq!['\\', 'f']
    } else if ch == '\r' {
        seq!['\\', 'r']
    } else if (ch as u32) < 0x20 {
        seq!['\\', 'u', '0', '0', hex_digit((ch as u32) as int / 16), hex_digit((ch as u32) as int % 16)]
    } else {
        seq![ch]
    }
}

/// The characters of `text`, each replaced by what stands for it.
pub open spec fn escape_text(text: Seq<char>) -> Seq<char>
    decreases text.len(),
{
    if text.len() == 0 {
        Seq::empty()
    } else {
        escape_text(text.drop_last()) + escape_char(text.last())
    }
}

/// `text` as a JSON string: escaped, between two quotes.
pub open spec fn quoted_text(text: Seq<char>) -> Seq<char> {
    seq!['"'] + escape_text(text) + seq!['"']
}

/// Appends what stands for `ch` inside a quoted string to `out`.
pub fn push_escaped_char(out: &mut String, ch: char)
    ensures
        final(out)@ == old(out)@ + escape_char(ch),
{
    let code: u32 = ch as u32;
    if ch == '"' || ch == '\\' {
        out.push('\\');
        out.push(ch);
    } else if ch == '\u{8}' {
        out.push('\\');
        out.push('b');
    } else if ch == '\t' {
        out.push('\\');
        out.push('t');
    } else if ch == '\n' {
        out.push('\\');
        out.push('n');
    } else if ch == '\u{c}' {
        out.push('\\');
        out.push('f');
    } else if ch == '\r' {
        out.push('\\');
        out.push('r');
    } else if code < 0x20 {
        out.push('\\');
        out.push('u');
        out.push('0');
        out.push('0');
        out.push(digit_char((code / 16) as u8));
        out.push(digit_char((code % 16) as u8));
    } else {
        out.push(ch);
    }
    assert(out@ =~= old(out)@ + escape_char(ch));
}

/// Appends the escaped characters of `text` to `out`.
pub fn push_escaped(out: &mut String, text: &str)
    ensures
        final(out)@ == old(out)@ + escape_text(text@),
{
    let ghost before = out@;
    assert(before + escape_text(text@.take(0)) =~= before);
    for ch in it: text.chars()
        invariant
            it.seq() == text@,
            out@ == before + escape_text(text@.take(it.index())),
    {
        let ghost done = it.index();
        assert(text@.take(done + 1).drop_last() =~= text@.take(done));
        push_escaped_char(out, ch);
        assert(out@ =~= before + escape_text(text@.take(done + 1)));
    }
    assert(text@.take(text@.len() as int) =~= text@);
}

/// Appends `text` as a JSON string to `out`.
pub fn push_quoted(out: &mut String, text: &str)
    ensures
        final(out)@ == old(out)@ + quoted_text(text@),
{
    out.push('"');
    push_escaped(out, text);
    out.push('"');
    assert(out@ =~= old(out)@ + quoted_text(text@));
}

} // verus!

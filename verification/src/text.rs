//! Numbers written out as text: fixed-width lowercase hexadecimal and plain
//! decimal, each with the function that appends it to a string.

use vstd::prelude::*;

verus! {

/// String::push appends one character to the end of the string and leaves
/// what was there before in place.
pub assume_specification[ String::push ](text: &mut String, ch: char)
    ensures
        final(text)@ == old(text)@.push(ch),
;

/// The lowercase hexadecimal digit for a value below 16. For a value below
/// 10 this is its decimal digit.
pub open spec fn hex_digit(nibble: int) -> char {
    if nibble == 0 {
        '0'
    } else if nibble == 1 {
        '1'
    } else if nibble == 2 {
        '2'
    } else if nibble == 3 {
        '3'
    } else if nibble == 4 {
        '4'
    } else if nibble == 5 {
        '5'
    } else if nibble == 6 {
        '6'
    } else if nibble == 7 {
        '7'
    } else if nibble == 8 {
        '8'
    } else if nibble == 9 {
        '9'
    } else if nibble == 10 {
        'a'
    } else if nibble == 11 {
        'b'
    } else if nibble == 12 {
        'c'
    } else if nibble == 13 {
        'd'
    } else if nibble == 14 {
        'e'
    } else {
        'f'
    }
}

/// Whether `ch` is one of `0`-`9` or `a`-`f`.
pub open spec fn is_lower_hex(ch: char) -> bool {
    ('0' <= ch && ch <= '9') || ('a' <= ch && ch <= 'f')
}

/// `value` modulo `16^width`, written with exactly `width` hexadecimal
/// digits, leading zeros included.
pub open spec fn hex_text(value: nat, width: nat) -> Seq<char>
    decreases width,
{
    if width == 0 {
        Seq::empty()
    } else {
        hex_text(value / 16, (width - 1) as nat).push(hex_digit((value % 16) as int))
    }
}

/// `value` in decimal, without sign and without leading zeros.
pub open spec fn decimal_text(value: nat) -> Seq<char>
    decreases value,
{
    if value < 10 {
        seq![hex_digit(value as int)]
    } else {
        decimal_text(value / 10).push(hex_digit((value % 10) as int))
    }
}

/// `16^exponent`.
pub open spec fn pow16(exponent: nat) -> nat
    decreases exponent,
{
    if exponent == 0 {
        1
    } else {
        16 * pow16((exponent - 1) as nat)
    }
}

/// A fixed-width rendering has `width` characters, all of them lowercase
/// hexadecimal digits.
pub proof fn lemma_hex_text_shape(value: nat, width: nat)
    ensures
        hex_text(value, width).len() == width,
        forall|i: int| 0 <= i < width ==> is_lower_hex(#[trigger] hex_text(value, width)[i]),
    decreases width,
{
    if width > 0 {
        lemma_hex_text_shape(value / 16, (width - 1) as nat);
    }
}

/// Two numbers below `16^width` with the same `width`-digit rendering are
/// the same number.
pub proof fn lemma_hex_text_injective(a: nat, b: nat, width: nat)
    requires
        a < pow16(width),
        b < pow16(width),
        hex_text(a, width) == hex_text(b, width),
    ensures
        a == b,
    decreases width,
{
    if width > 0 {
        let rest: nat = (width - 1) as nat;
        let left = hex_text(a / 16, rest);
        let right = hex_text(b / 16, rest);
        lemma_hex_text_shape(a / 16, rest);
        lemma_hex_text_shape(b / 16, rest);
        assert(left == hex_text(a, width).drop_last());
        assert(right == hex_text(b, width).drop_last());
        assert(hex_digit((a % 16) as int) == hex_text(a, width).last());
        assert(hex_digit((b % 16) as int) == hex_text(b, width).last());
        assert(a % 16 == b % 16);
        lemma_hex_text_injective(a / 16, b / 16, rest);
    }
}

/// The character for one hexadecimal digit.
pub fn digit_char(nibble: u8) -> (ch: char)
    requires
        nibble < 16,
    ensures
        ch == hex_digit(nibble as int),
{
    match nibble {
        0 => '0',
        1 => '1',
        2 => '2',
        3 => '3',
        4 => '4',
        5 => '5',
        6 => '6',
        7 => '7',
        8 => '8',
        9 => '9',
        10 => 'a',
        11 => 'b',
        12 => 'c',
        13 => 'd',
        14 => 'e',
        _ => 'f',
    }
}

/// Appends the `width` lowest hexadecimal digits of `value` to `out`.
pub fn push_hex(out: &mut String, value: u128, width: u8)
    ensures
        final(out)@ == old(out)@ + hex_text(value as nat, width as nat),
    decreases width,
{
    if width > 0 {
        push_hex(out, value / 16, width - 1);
        let low: u8 = (value % 16) as u8;
        out.push(digit_char(low));
    }
}

/// Appends `value` in decimal to `out`.
pub fn push_decimal(out: &mut String, value: u64)
    ensures
        final(out)@ == old(out)@ + decimal_text(value as nat),
    decreases value,
{
    if value >= 10 {
        push_decimal(out, value / 10);
    }
    let low: u8 = (value % 10) as u8;
    out.push(digit_char(low));
}

} // verus!

//! Text that the rest of the crate builds or compares: decimal numbers,
//! lowercase hexadecimal, lowercased addresses.

use vstd::prelude::*;

verus! {

/// The character that writes one digit, in any base up to sixteen.
pub open spec fn digit_char(d: nat) -> char {
    if d == 0 {
        '0'
    } else if d == 1 {
        '1'
    } else if d == 2 {
        '2'
    } else if d == 3 {
        '3'
    } else if d == 4 {
        '4'
    } else if d == 5 {
        '5'
    } else if d == 6 {
        '6'
    } else if d == 7 {
        '7'
    } else if d == 8 {
        '8'
    } else if d == 9 {
        '9'
    } else if d == 10 {
        'a'
    } else if d == 11 {
        'b'
    } else if d == 12 {
        'c'
    } else if d == 13 {
        'd'
    } else if d == 14 {
        'e'
    } else {
        'f'
    }
}

/// A number in decimal, most significant digit first, without leading zeros.
pub open spec fn decimal_text(n: nat) -> Seq<char>
    decreases n,
{
    if n < 10 {
        seq![digit_char(n)]
    } else {
        decimal_text(n / 10).push(digit_char(n % 10))
    }
}

/// Bytes in lowercase hexadecimal, two digits for each byte, high half first.
pub open spec fn hex_text(bytes: Seq<u8>) -> Seq<char> {
    Seq::new(
        2 * bytes.len(),
        |i: int|
            if i % 2 == 0 {
                digit_char((bytes[i / 2] / 16) as nat)
            } else {
                digit_char((bytes[i / 2] % 16) as nat)
            },
    )
}

/// A character with the capital letters A to Z made small.
pub open spec fn ascii_lowered_char(c: char) -> char {
    if 'A' <= c && c <= 'Z' {
        ((c as u32) + 32) as char
    } else {
        c
    }
}

/// A text with its capital letters A to Z made small, all else unchanged.
pub open spec fn ascii_lowered(text: Seq<char>) -> Seq<char> {
    text.map_values(|c: char| ascii_lowered_char(c))
}

/// `str::to_ascii_lowercase` makes the letters A to Z small and leaves
/// every other character as it is.
pub assume_specification[ str::to_ascii_lowercase ](text: &str) -> (r: String)
    ensures
        r@ == ascii_lowered(text@),
;

/// `String::push` appends one character.
pub assume_specification[ String::push ](s: &mut String, ch: char)
    ensures
        final(s)@ == old(s)@.push(ch),
;

/// `str`'s `==` compares the characters.
pub assume_specification[ <str as PartialEq>::eq ](a: &str, b: &str) -> (r: bool)
    ensures
        r == (a@ == b@),
;

fn digit(d: u8) -> (c: char)
    requires
        d < 16,
    ensures
        c == digit_char(d as nat),
{
    match d {
        0 => '0',
        1 => '1',
        2 => '2',
        3 => '3',
        4 => '4',
        5 => '5',
        6 => '6',
        7 => '7',
        8 => '8',
        9 => '9',
        10 => 'a',
        11 => 'b',
        12 => 'c',
        13 => 'd',
        14 => 'e',
        _ => 'f',
    }
}

/// Appends `n` in decimal to `out`.
pub fn push_decimal(out: &mut String, n: u32)
    ensures
        final(out)@ == old(out)@ + decimal_text(n as nat),
    decreases n,
{
    if n >= 10 {
        push_decimal(out, n / 10);
    }
    out.push(digit((n % 10) as u8));
}

/// What `str::to_lowercase` returns for a text: its lowercase form by the
/// Unicode tables.
pub uninterp spec fn lowercased(text: Seq<char>) -> Seq<char>;

/// Calls `hex::encode`, which writes each byte as two digits out of
/// `0123456789abcdef`, the high half first.
#[verifier::external_body]
pub(crate) fn hex_encode(bytes: &[u8]) -> (r: String)
    ensures
        r@ == hex_text(bytes@),
{
    hex::encode(bytes)
}

/// Calls `str::to_lowercase`. Nothing is claimed of the result but that it
/// depends on the text alone.
#[verifier::external_body]
pub(crate) fn to_lowercase(text: &str) -> (r: String)
    ensures
        r@ == lowercased(text@),
{
    text.to_lowercase()
}

/// Hexadecimal text has two characters for each byte.
pub proof fn hex_text_len(bytes: Seq<u8>)
    ensures
        hex_text(bytes).len() == 2 * bytes.len(),
{
}

/// Different digits are written with different characters.
pub proof fn digit_char_distinct(a: nat, b: nat)
    requires
        a < 16,
        b < 16,
        digit_char(a) == digit_char(b),
    ensures
        a == b,
{
}

/// Hexadecimal text determines the bytes: two byte strings with the same
/// text are the same.
pub proof fn hex_text_injective(a: Seq<u8>, b: Seq<u8>)
    requires
        hex_text(a) == hex_text(b),
    ensures
        a == b,
{
    hex_text_len(a);
    hex_text_len(b);
    assert(a.len() == b.len());
    assert forall|i: int| 0 <= i < a.len() implies a[i] == b[i] by {
        let high = hex_text(a)[2 * i];
        let low = hex_text(a)[2 * i + 1];
        assert(high == hex_text(b)[2 * i]);
        assert(low == hex_text(b)[2 * i + 1]);
        assert((2 * i) % 2 == 0 && (2 * i) / 2 == i);
        assert((2 * i + 1) % 2 == 1 && (2 * i + 1) / 2 == i);
        digit_char_distinct((a[i] / 16) as nat, (b[i] / 16) as nat);
        digit_char_distinct((a[i] % 16) as nat, (b[i] % 16) as nat);
    }
    assert(a =~= b);
}

/// Whether two texts are the same, character by character.
pub fn same_text(a: &str, b: &str) -> (r: bool)
    ensures
        r == (a@ == b@),
{
    a.eq(b)
}

} // verus!

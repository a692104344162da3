//! The binary and hexadecimal text forms of a bit sequence.

use vstd::prelude::*;

verus! {

/// Every character of `t` is `'0'` or `'1'`.
pub open spec fn is_binary_text(t: Seq<char>) -> bool {
    forall|i: int| 0 <= i < t.len() ==> (#[trigger] t[i] == '0' || t[i] == '1')
}

/// The bits that binary text stands for: one per character, `'1'` for set.
pub open spec fn bits_of_binary(t: Seq<char>) -> Seq<bool> {
    Seq::new(t.len(), |i: int| t[i] == '1')
}

/// The binary text of a bit sequence, first bit first.
pub open spec fn binary_text_of(b: Seq<bool>) -> Seq<char> {
    Seq::new(b.len(), |i: int| if b[i] { '1' } else { '0' })
}

/// The text starts with `0x` or `0X`.
pub open spec fn has_hex_prefix(t: Seq<char>) -> bool {
    t.len() >= 2 && t[0] == '0' && (t[1] == 'x' || t[1] == 'X')
}

/// The digits of hexadecimal text, without its optional `0x` / `0X` prefix.
pub open spec fn hex_digits(t: Seq<char>) -> Seq<char> {
    if has_hex_prefix(t) {
        t.subrange(2, t.len() as int)
    } else {
        t
    }
}

/// A decimal digit or a letter from `a` to `f` of either case.
pub open spec fn is_hex_digit(c: char) -> bool {
    ('0' <= c && c <= '9') || ('a' <= c && c <= 'f') || ('A' <= c && c <= 'F')
}

/// The value of a hexadecimal digit, either case.
pub open spec fn hex_value(c: char) -> int {
    if '0' <= c && c <= '9' {
        c as int - '0' as int
    } else if 'a' <= c && c <= 'f' {
        c as int - 'a' as int + 10
    } else {
        c as int - 'A' as int + 10
    }
}

/// The lower-case form of a hexadecimal digit.
pub open spec fn lower_hex(c: char) -> char {
    if 'A' <= c && c <= 'F' {
        ((c as u32) + 32) as char
    } else {
        c
    }
}

/// Hexadecimal text, after its optional prefix, is made of digits only.
pub open spec fn is_hex_text(t: Seq<char>) -> bool {
    forall|i: int| 0 <= i < hex_digits(t).len() ==> is_hex_digit(#[trigger] hex_digits(t)[i])
}

/// Bit `k` (0 is the most significant) of a nibble `v`.
pub open spec fn nibble_bit(v: int, k: int) -> bool {
    if k == 0 {
        v / 8 % 2 == 1
    } else if k == 1 {
        v / 4 % 2 == 1
    } else if k == 2 {
        v / 2 % 2 == 1
    } else {
        v % 2 == 1
    }
}

/// The bits that hexadecimal text stands for: four per digit, most
/// significant first.
pub open spec fn bits_of_hex(t: Seq<char>) -> Seq<bool> {
    bits_of_digits(hex_digits(t))
}

/// The bits of a run of hexadecimal digits, four per digit.
pub open spec fn bits_of_digits(d: Seq<char>) -> Seq<bool> {
    Seq::new(4 * d.len(), |i: int| nibble_bit(hex_value(d[i / 4]), i % 4))
}

/// One for a set bit, zero otherwise.
pub open spec fn bit_value(b: bool) -> int {
    if b { 1 } else { 0 }
}

/// The value of the `k`-th group of four bits of `b`.
pub open spec fn nibble_at(b: Seq<bool>, k: int) -> int {
    8 * bit_value(b[4 * k]) + 4 * bit_value(b[4 * k + 1]) + 2 * bit_value(b[4 * k + 2])
        + bit_value(b[4 * k + 3])
}

/// The lower-case hexadecimal digit of a value below sixteen.
pub open spec fn hex_char(v: int) -> char {
    if v < 10 {
        ('0' as u32 + v) as char
    } else {
        ('a' as u32 + v - 10) as char
    }
}

/// The hexadecimal text of a bit sequence whose length is a multiple of
/// four: one lower-case digit per group of four bits.
pub open spec fn hex_text_of(b: Seq<bool>) -> Seq<char> {
    Seq::new(b.len() / 4, |k: int| hex_char(nibble_at(b, k)))
}

} // verus!

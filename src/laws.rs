//! Facts relating the operations of the library, stated over the models
//! that their contracts use.

use crate::ops::{combine_bits, filled_bits, splice_bits, BitOp};
use crate::text::{
    binary_text_of, bits_of_binary, bits_of_hex, hex_digits, hex_text_of, hex_value,
    is_binary_text, is_hex_digit, is_hex_text, lower_hex, nibble_at, nibble_bit,
};
use vstd::prelude::*;

verus! {

/// `n` copies of a bit form a sequence of length `n` whose every bit is
/// that one: all-zero and all-one collections are made of exactly these.
pub proof fn filled_bits_are_uniform(n: nat, v: bool)
    ensures
        filled_bits(n, v).len() == n,
        forall|i: int| 0 <= i < n ==> #[trigger] filled_bits(n, v)[i] == v,
{
}

/// Decoding binary text and encoding the result gives the text back.
pub proof fn binary_round_trip(t: Seq<char>)
    requires
        is_binary_text(t),
    ensures
        binary_text_of(bits_of_binary(t)) == t,
{
    assert forall|i: int| 0 <= i < t.len() implies #[trigger] binary_text_of(bits_of_binary(t))[i]
        == t[i] by {
        assert(t[i] == '0' || t[i] == '1');
    }
    assert(binary_text_of(bits_of_binary(t)) =~= t);
}

/// Encoding bits as binary text and decoding it gives the bits back.
pub proof fn binary_text_decodes_back(b: Seq<bool>)
    ensures
        is_binary_text(binary_text_of(b)),
        bits_of_binary(binary_text_of(b)) == b,
{
    assert(bits_of_binary(binary_text_of(b)) =~= b);
}

/// Decoding hexadecimal text and encoding the result gives back its digits,
/// without the prefix and in lower case.
pub proof fn hex_round_trip(t: Seq<char>)
    requires
        is_hex_text(t),
    ensures
        bits_of_hex(t).len() % 4 == 0,
        hex_text_of(bits_of_hex(t)) == hex_digits(t).map_values(|c: char| lower_hex(c)),
{
    let d = hex_digits(t);
    let b = bits_of_hex(t);
    assert(b.len() == 4 * d.len());
    assert(b.len() / 4 == d.len()) by (nonlinear_arith)
        requires
            b.len() == 4 * d.len(),
    ;
    assert(b.len() % 4 == 0) by (nonlinear_arith)
        requires
            b.len() == 4 * d.len(),
    ;
    assert forall|k: int| 0 <= k < d.len() implies #[trigger] hex_text_of(b)[k] == lower_hex(
        d[k],
    ) by {
        assert(is_hex_digit(d[k]));
        let v = hex_value(d[k]);
        assert((4 * k) / 4 == k && (4 * k + 1) / 4 == k && (4 * k + 2) / 4 == k && (4 * k + 3)
            / 4 == k);
        assert((4 * k) % 4 == 0 && (4 * k + 1) % 4 == 1 && (4 * k + 2) % 4 == 2 && (4 * k + 3)
            % 4 == 3);
        assert(b[4 * k] == nibble_bit(v, 0));
        assert(b[4 * k + 1] == nibble_bit(v, 1));
        assert(b[4 * k + 2] == nibble_bit(v, 2));
        assert(b[4 * k + 3] == nibble_bit(v, 3));
        assert(0 <= v < 16);
        assert(nibble_at(b, k) == v);
    }
    assert(hex_text_of(b) =~= d.map_values(|c: char| lower_hex(c)));
}

/// Setting bit `i` to `v` and reading it back gives `v`; every other bit
/// and the length are unchanged.
pub proof fn set_then_get(c: Seq<bool>, i: int, v: bool)
    requires
        0 <= i < c.len(),
    ensures
        c.update(i, v).len() == c.len(),
        c.update(i, v)[i] == v,
        forall|j: int| 0 <= j < c.len() && j != i ==> #[trigger] c.update(i, v)[j] == c[j],
{
}

/// The bitwise operations obey the usual boolean identities bit by bit: AND
/// and OR are idempotent, XOR of a sequence with itself is all zeros, each
/// operation is commutative, XOR with the same operand twice cancels, and
/// every result has the operands' length.
pub proof fn combine_identities(a: Seq<bool>, b: Seq<bool>)
    requires
        a.len() == b.len(),
    ensures
        combine_bits(BitOp::And, a, a) == a,
        combine_bits(BitOp::Or, a, a) == a,
        combine_bits(BitOp::Xor, a, a) == filled_bits(a.len(), false),
        combine_bits(BitOp::And, a, b) == combine_bits(BitOp::And, b, a),
        combine_bits(BitOp::Or, a, b) == combine_bits(BitOp::Or, b, a),
        combine_bits(BitOp::Xor, a, b) == combine_bits(BitOp::Xor, b, a),
        combine_bits(BitOp::Xor, combine_bits(BitOp::Xor, a, b), b) == a,
        combine_bits(BitOp::And, a, filled_bits(a.len(), false)) == filled_bits(a.len(), false),
        combine_bits(BitOp::Or, a, filled_bits(a.len(), true)) == filled_bits(a.len(), true),
        forall|op: BitOp| #[trigger] combine_bits(op, a, b).len() == a.len(),
{
    assert(combine_bits(BitOp::And, a, a) =~= a);
    assert(combine_bits(BitOp::Or, a, a) =~= a);
    assert(combine_bits(BitOp::Xor, a, a) =~= filled_bits(a.len(), false));
    assert(combine_bits(BitOp::And, a, b) =~= combine_bits(BitOp::And, b, a));
    assert(combine_bits(BitOp::Or, a, b) =~= combine_bits(BitOp::Or, b, a));
    assert(combine_bits(BitOp::Xor, a, b) =~= combine_bits(BitOp::Xor, b, a));
    assert(combine_bits(BitOp::Xor, combine_bits(BitOp::Xor, a, b), b) =~= a);
    assert(combine_bits(BitOp::And, a, filled_bits(a.len(), false)) =~= filled_bits(
        a.len(),
        false,
    ));
    assert(combine_bits(BitOp::Or, a, filled_bits(a.len(), true)) =~= filled_bits(a.len(), true));
}

/// Replacing the bits `[start, end)` by as many new bits keeps the length,
/// puts the new bits in that range, and leaves every bit outside it as it
/// was.
pub proof fn splice_same_length(c: Seq<bool>, start: int, end: int, r: Seq<bool>)
    requires
        0 <= start <= end <= c.len(),
        r.len() == end - start,
    ensures
        splice_bits(c, start, end, r).len() == c.len(),
        forall|j: int|
            0 <= j < c.len() && !(start <= j < end) ==> #[trigger] splice_bits(c, start, end, r)[j]
                == c[j],
        forall|j: int| start <= j < end ==> #[trigger] splice_bits(c, start, end, r)[j] == r[j
            - start],
{
}

} // verus!

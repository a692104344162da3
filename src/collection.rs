//! The operations shared by the immutable and the mutable bit collection.

use crate::buffer::{bits_of_bytes, BitBuffer};
use crate::error::BitsError;
use crate::ops::{combine_bits, filled_bits, BitOp};
use crate::text::{
    binary_text_of, bits_of_binary, bits_of_hex, hex_digits, hex_text_of, is_binary_text,
    is_hex_text,
};
use vstd::prelude::*;

verus! {

/// A sequence of bits backed by a [`BitBuffer`].
pub trait BitCollection: Sized {
    /// The bits, first to last.
    spec fn bits(&self) -> Seq<bool>;

    /// The backing buffer is well formed.
    spec fn wf(&self) -> bool;

    /// The backing buffer, for reading.
    fn buffer(&self) -> (r: &BitBuffer)
        requires
            self.wf(),
        ensures
            r.wf(),
            r@ == self.bits(),
    ;

    /// A collection that owns the buffer `b`.
    fn from_buffer(b: BitBuffer) -> (r: Self)
        requires
            b.wf(),
        ensures
            r.wf(),
            r.bits() == b@,
    ;

    /// `n` bits, all unset.
    fn from_zeros(n: usize) -> (r: Self)
        ensures
            r.wf(),
            r.bits() == filled_bits(n as nat, false),
    {
        Self::from_buffer(BitBuffer::filled(n, false))
    }

    /// `n` bits, all set.
    fn from_ones(n: usize) -> (r: Self)
        ensures
            r.wf(),
            r.bits() == filled_bits(n as nat, true),
    {
        Self::from_buffer(BitBuffer::filled(n, true))
    }

    /// The bits of `bytes`, eight per byte, most significant first;
    /// `InvalidLength` when their count would not fit in a `usize`.
    fn from_bytes(bytes: &[u8]) -> (r: Result<Self, BitsError>)
        ensures
            r is Ok <==> 8 * bytes@.len() <= usize::MAX,
            r matches Ok(c) ==> c.wf() && c.bits() == bits_of_bytes(bytes@),
            r matches Err(e) ==> e == BitsError::InvalidLength,
    {
        if bytes.len() > usize::MAX / 8 {
            return Err(BitsError::InvalidLength);
        }
        Ok(Self::from_buffer(BitBuffer::from_bytes(bytes)))
    }

    /// Decodes binary text, one bit per character; `InvalidCharacter` when a
    /// character is neither `'0'` nor `'1'`.
    fn from_binary(text: &str) -> (r: Result<Self, BitsError>)
        ensures
            r is Ok <==> is_binary_text(text@),
            r matches Ok(c) ==> c.wf() && c.bits() == bits_of_binary(text@),
            r matches Err(e) ==> e == BitsError::InvalidCharacter,
    {
        match BitBuffer::from_binary_text(text) {
            Ok(b) => Ok(Self::from_buffer(b)),
            Err(e) => Err(e),
        }
    }

    /// Decodes hexadecimal text, four bits per digit, after an optional
    /// `0x` / `0X` prefix. `InvalidCharacter` when a character is not a hex
    /// digit; `InvalidLength` when the bit count would not fit in a `usize`.
    fn from_hexadecimal(text: &str) -> (r: Result<Self, BitsError>)
        ensures
            r is Ok <==> is_hex_text(text@) && 4 * hex_digits(text@).len() <= usize::MAX,
            r matches Ok(c) ==> c.wf() && c.bits() == bits_of_hex(text@),
            r matches Err(e) ==> (if 4 * hex_digits(text@).len() > usize::MAX {
                e == BitsError::InvalidLength
            } else {
                e == BitsError::InvalidCharacter
            }),
    {
        match BitBuffer::from_hex_text(text) {
            Ok(b) => Ok(Self::from_buffer(b)),
            Err(e) => Err(e),
        }
    }

    /// The number of bits.
    fn length(&self) -> (r: usize)
        requires
            self.wf(),
        ensures
            r == self.bits().len(),
    {
        self.buffer().len()
    }

    /// The bit at position `i`; `IndexOutOfRange` past the end.
    fn _getindex(&self, i: usize) -> (r: Result<bool, BitsError>)
        requires
            self.wf(),
        ensures
            r is Ok <==> i < self.bits().len(),
            r matches Ok(v) ==> v == self.bits()[i as int],
            r matches Err(e) ==> e == BitsError::IndexOutOfRange,
    {
        let b = self.buffer();
        if i >= b.len() {
            return Err(BitsError::IndexOutOfRange);
        }
        Ok(b.get(i))
    }

    /// A new collection of the bits `[start, end)`; `InvalidRange` when
    /// `start > end` or `end` lies past the end.
    fn _getslice(&self, start: usize, end: usize) -> (r: Result<Self, BitsError>)
        requires
            self.wf(),
        ensures
            r is Ok <==> start <= end <= self.bits().len(),
            r matches Ok(c) ==> c.wf() && c.bits() == self.bits().subrange(start as int, end as int),
            r matches Err(e) ==> e == BitsError::InvalidRange,
    {
        let b = self.buffer();
        if start > end || end > b.len() {
            return Err(BitsError::InvalidRange);
        }
        Ok(Self::from_buffer(b.slice(start, end)))
    }

    /// The binary text: one `'0'` or `'1'` per bit, first bit first.
    fn to_binary(&self) -> (r: String)
        requires
            self.wf(),
        ensures
            r@ == binary_text_of(self.bits()),
    {
        self.buffer().to_binary_text()
    }

    /// The lower-case hexadecimal text, one digit per four bits;
    /// `UnalignedLength` when the length is not a multiple of four.
    fn to_hexadecimal(&self) -> (r: Result<String, BitsError>)
        requires
            self.wf(),
        ensures
            r is Ok <==> self.bits().len() % 4 == 0,
            r matches Ok(t) ==> t@ == hex_text_of(self.bits()),
            r matches Err(e) ==> e == BitsError::UnalignedLength,
    {
        self.buffer().to_hex_text()
    }
}

/// A new collection with `op` applied to each pair of bits of `a` and
/// `other`; `LengthMismatch` when their lengths differ.
pub fn combine<A: BitCollection, C: BitCollection>(a: &A, op: BitOp, other: &C) -> (r: Result<
    A,
    BitsError,
>)
    requires
        a.wf(),
        other.wf(),
    ensures
        r is Ok <==> a.bits().len() == other.bits().len(),
        r matches Ok(c) ==> c.wf() && c.bits() == combine_bits(op, a.bits(), other.bits()),
        r matches Err(e) ==> e == BitsError::LengthMismatch,
{
    let x = a.buffer();
    let y = other.buffer();
    if x.len() != y.len() {
        return Err(BitsError::LengthMismatch);
    }
    Ok(A::from_buffer(x.combine(op, y)))
}

/// Whether `a` and `b` hold the same bits; collections of different lengths
/// are simply unequal.
pub fn same_bits<A: BitCollection, C: BitCollection>(a: &A, b: &C) -> (r: bool)
    requires
        a.wf(),
        b.wf(),
    ensures
        r == (a.bits() == b.bits()),
{
    let x = a.buffer();
    let y = b.buffer();
    let n = x.len();
    if n != y.len() {
        assert(x@.len() != y@.len());
        return false;
    }
    let mut i: usize = 0;
    while i < n
        invariant
            x.wf(),
            y.wf(),
            x@ == a.bits(),
            y@ == b.bits(),
            n == x@.len() == y@.len(),
            i <= n,
            forall|j: int| 0 <= j < i ==> x@[j] == y@[j],
        decreases n - i,
    {
        if x.get(i) != y.get(i) {
            assert(x@[i as int] != y@[i as int]);
            return false;
        }
        i = i + 1;
    }
    assert(x@ =~= y@);
    true
}

/// A bit count given as a signed integer, as a `usize`; `InvalidLength`
/// when it is negative or too large.
pub fn bit_count(n: i128) -> (r: Result<usize, BitsError>)
    ensures
        r is Ok <==> 0 <= n <= usize::MAX,
        r matches Ok(v) ==> v == n,
        r matches Err(e) ==> e == BitsError::InvalidLength,
{
    if n < 0 || n > usize::MAX as i128 {
        return Err(BitsError::InvalidLength);
    }
    Ok(n as usize)
}

} // verus!

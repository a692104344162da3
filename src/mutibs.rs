//! The mutable bit collection, changed in place by its single owner.

use crate::buffer::BitBuffer;
use crate::collection::BitCollection;
use crate::error::BitsError;
use crate::immutable::Tibs;
use crate::ops::{combine_bits, splice_bits, BitOp};
use vstd::prelude::*;

verus! {

/// A sequence of bits that its owner may change in place.
pub struct Mutibs {
    buf: BitBuffer,
}

impl BitCollection for Mutibs {
    closed spec fn bits(&self) -> Seq<bool> {
        self.buf@
    }

    closed spec fn wf(&self) -> bool {
        self.buf.wf()
    }

    fn buffer(&self) -> (r: &BitBuffer) {
        &self.buf
    }

    fn from_buffer(b: BitBuffer) -> (r: Mutibs) {
        Mutibs { buf: b }
    }
}

impl Mutibs {
    /// Overwrites the bit at position `i` with `value`; `IndexOutOfRange`
    /// past the end, leaving the bits unchanged.
    pub fn _set_index(&mut self, value: bool, i: usize) -> (r: Result<(), BitsError>)
        requires
            old(self).wf(),
        ensures
            final(self).wf(),
            r is Ok <==> i < old(self).bits().len(),
            r is Ok ==> final(self).bits() == old(self).bits().update(i as int, value),
            r matches Err(e) ==> e == BitsError::IndexOutOfRange && final(self).bits() == old(
                self,
            ).bits(),
    {
        if i >= self.buf.len() {
            return Err(BitsError::IndexOutOfRange);
        }
        self.buf.set(i, value);
        Ok(())
    }

    /// Replaces the bits `[start, end)` with the bits of `source`, whose
    /// length may differ from `end - start`: the bits after `end` follow the
    /// new ones directly. `InvalidRange` when `start > end` or `start` lies
    /// past the end; `IndexOutOfRange` when only `end` lies past the end;
    /// `InvalidLength` when the new length would not fit in a `usize`. On an
    /// error the bits are unchanged.
    pub fn _set_slice<C: BitCollection>(&mut self, start: usize, end: usize, source: &C) -> (r:
        Result<(), BitsError>)
        requires
            old(self).wf(),
            source.wf(),
        ensures
            final(self).wf(),
            r is Ok <==> start <= end <= old(self).bits().len() && old(self).bits().len() - (end
                - start) + source.bits().len() <= usize::MAX,
            r is Ok ==> final(self).bits() == splice_bits(
                old(self).bits(),
                start as int,
                end as int,
                source.bits(),
            ),
            r matches Err(e) ==> final(self).bits() == old(self).bits() && (if start > end
                || start > old(self).bits().len() {
                e == BitsError::InvalidRange
            } else if end > old(self).bits().len() {
                e == BitsError::IndexOutOfRange
            } else {
                e == BitsError::InvalidLength
            }),
    {
        let n = self.buf.len();
        if start > end || start > n {
            return Err(BitsError::InvalidRange);
        }
        if end > n {
            return Err(BitsError::IndexOutOfRange);
        }
        let src = source.buffer();
        if src.len() > usize::MAX - (n - (end - start)) {
            return Err(BitsError::InvalidLength);
        }
        self.buf = self.buf.spliced(start, end, src);
        Ok(())
    }

    /// Applies `op` to each pair of bits of `self` and `other`, writing the
    /// result into `self`; `LengthMismatch` when their lengths differ,
    /// leaving the bits unchanged.
    pub fn combine_in_place<C: BitCollection>(&mut self, op: BitOp, other: &C) -> (r: Result<
        (),
        BitsError,
    >)
        requires
            old(self).wf(),
            other.wf(),
        ensures
            final(self).wf(),
            r is Ok <==> old(self).bits().len() == other.bits().len(),
            r is Ok ==> final(self).bits() == combine_bits(op, old(self).bits(), other.bits()),
            r matches Err(e) ==> e == BitsError::LengthMismatch && final(self).bits() == old(
                self,
            ).bits(),
    {
        let b = other.buffer();
        if self.buf.len() != b.len() {
            return Err(BitsError::LengthMismatch);
        }
        self.buf.combine_in_place(op, b);
        Ok(())
    }

    /// In-place bitwise AND with `other`.
    pub fn _iand<C: BitCollection>(&mut self, other: &C) -> (r: Result<(), BitsError>)
        requires
            old(self).wf(),
            other.wf(),
        ensures
            final(self).wf(),
            r is Ok <==> old(self).bits().len() == other.bits().len(),
            r is Ok ==> final(self).bits() == combine_bits(BitOp::And, old(self).bits(), other.bits()),
            r matches Err(e) ==> e == BitsError::LengthMismatch && final(self).bits() == old(
                self,
            ).bits(),
    {
        self.combine_in_place(BitOp::And, other)
    }

    /// In-place bitwise OR with `other`.
    pub fn _ior<C: BitCollection>(&mut self, other: &C) -> (r: Result<(), BitsError>)
        requires
            old(self).wf(),
            other.wf(),
        ensures
            final(self).wf(),
            r is Ok <==> old(self).bits().len() == other.bits().len(),
            r is Ok ==> final(self).bits() == combine_bits(BitOp::Or, old(self).bits(), other.bits()),
            r matches Err(e) ==> e == BitsError::LengthMismatch && final(self).bits() == old(
                self,
            ).bits(),
    {
        self.combine_in_place(BitOp::Or, other)
    }

    /// In-place bitwise XOR with `other`.
    pub fn _ixor<C: BitCollection>(&mut self, other: &C) -> (r: Result<(), BitsError>)
        requires
            old(self).wf(),
            other.wf(),
        ensures
            final(self).wf(),
            r is Ok <==> old(self).bits().len() == other.bits().len(),
            r is Ok ==> final(self).bits() == combine_bits(BitOp::Xor, old(self).bits(), other.bits()),
            r matches Err(e) ==> e == BitsError::LengthMismatch && final(self).bits() == old(
                self,
            ).bits(),
    {
        self.combine_in_place(BitOp::Xor, other)
    }

    /// An immutable snapshot of the current bits, which shares no storage
    /// with `self`.
    pub fn to_immutable(&self) -> (r: Tibs)
        requires
            self.wf(),
        ensures
            r.wf(),
            r.bits() == self.bits(),
    {
        Tibs::from_buffer(self.buf.copy())
    }
}

} // verus!

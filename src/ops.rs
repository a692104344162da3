//! Whole-buffer operations: filling, slicing, bitwise combination, splicing
//! and pattern search.

use crate::buffer::BitBuffer;
use vstd::prelude::*;

verus! {

/// A bitwise boolean operation.
#[derive(Debug, Clone, Copy, PartialEq, Eq, Structural)]
pub enum BitOp {
    And,
    Or,
    Xor,
}

/// `op` applied to one pair of bits.
pub open spec fn apply_op(op: BitOp, x: bool, y: bool) -> bool {
    match op {
        BitOp::And => x && y,
        BitOp::Or => x || y,
        BitOp::Xor => x != y,
    }
}

/// `op` applied position by position to two sequences of equal length.
pub open spec fn combine_bits(op: BitOp, a: Seq<bool>, b: Seq<bool>) -> Seq<bool> {
    Seq::new(a.len(), |i: int| apply_op(op, a[i], b[i]))
}

/// `n` copies of the bit `v`.
pub open spec fn filled_bits(n: nat, v: bool) -> Seq<bool> {
    Seq::new(n, |i: int| v)
}

/// `c` with the bits `[start, end)` replaced by `r`; the bits after `end`
/// follow `r` directly.
pub open spec fn splice_bits(c: Seq<bool>, start: int, end: int, r: Seq<bool>) -> Seq<bool> {
    c.subrange(0, start) + r + c.subrange(end, c.len() as int)
}

/// `pat` is non-empty and occurs in `c` starting at position `p`.
pub open spec fn occurs_at(c: Seq<bool>, pat: Seq<bool>, p: int) -> bool {
    &&& pat.len() > 0
    &&& 0 <= p
    &&& p + pat.len() <= c.len()
    &&& c.subrange(p, p + pat.len()) == pat
}

fn bit_op(op: BitOp, x: bool, y: bool) -> (r: bool)
    ensures
        r == apply_op(op, x, y),
{
    match op {
        BitOp::And => x && y,
        BitOp::Or => x || y,
        BitOp::Xor => x != y,
    }
}

impl BitBuffer {
    /// A buffer of `n` bits, each equal to `v`.
    pub fn filled(n: usize, v: bool) -> (r: BitBuffer)
        ensures
            r.wf(),
            r@ == filled_bits(n as nat, v),
    {
        let mut buf = BitBuffer::new();
        let mut i: usize = 0;
        while i < n
            invariant
                i <= n,
                buf.wf(),
                buf@ == filled_bits(i as nat, v),
            decreases n - i,
        {
            buf.push(v);
            i = i + 1;
            assert(buf@ =~= filled_bits(i as nat, v));
        }
        buf
    }

    /// A new buffer holding the bits `[start, end)`.
    pub fn slice(&self, start: usize, end: usize) -> (r: BitBuffer)
        requires
            self.wf(),
            start <= end <= self@.len(),
        ensures
            r.wf(),
            r@ == self@.subrange(start as int, end as int),
    {
        let mut buf = BitBuffer::new();
        let mut i: usize = start;
        while i < end
            invariant
                self.wf(),
                start <= i <= end <= self@.len(),
                buf.wf(),
                buf@ == self@.subrange(start as int, i as int),
            decreases end - i,
        {
            buf.push(self.get(i));
            i = i + 1;
            assert(buf@ =~= self@.subrange(start as int, i as int));
        }
        buf
    }

    /// A new buffer with the same bits.
    pub fn copy(&self) -> (r: BitBuffer)
        requires
            self.wf(),
        ensures
            r.wf(),
            r@ == self@,
    {
        let r = self.slice(0, self.len());
        assert(self@.subrange(0, self@.len() as int) =~= self@);
        r
    }

    /// A new buffer with `op` applied to each pair of bits of `self` and
    /// `other`.
    pub fn combine(&self, op: BitOp, other: &BitBuffer) -> (r: BitBuffer)
        requires
            self.wf(),
            other.wf(),
            self@.len() == other@.len(),
        ensures
            r.wf(),
            r@ == combine_bits(op, self@, other@),
    {
        let n = self.len();
        let mut buf = BitBuffer::new();
        let mut i: usize = 0;
        while i < n
            invariant
                self.wf(),
                other.wf(),
                n == self@.len() == other@.len(),
                i <= n,
                buf.wf(),
                buf@ == combine_bits(op, self@.subrange(0, i as int), other@.subrange(0, i as int)),
            decreases n - i,
        {
            buf.push(bit_op(op, self.get(i), other.get(i)));
            i = i + 1;
            assert(buf@ =~= combine_bits(
                op,
                self@.subrange(0, i as int),
                other@.subrange(0, i as int),
            ));
        }
        assert(self@.subrange(0, n as int) =~= self@);
        assert(other@.subrange(0, n as int) =~= other@);
        buf
    }

    /// Applies `op` to each pair of bits of `self` and `other`, writing the
    /// result into `self`.
    pub fn combine_in_place(&mut self, op: BitOp, other: &BitBuffer)
        requires
            old(self).wf(),
            other.wf(),
            old(self)@.len() == other@.len(),
        ensures
            final(self).wf(),
            final(self)@ == combine_bits(op, old(self)@, other@),
    {
        let ghost pre = self@;
        let n = self.len();
        let mut i: usize = 0;
        while i < n
            invariant
                other.wf(),
                self.wf(),
                n == pre.len() == other@.len() == self@.len(),
                i <= n,
                forall|j: int|
                    0 <= j < n ==> #[trigger] self@[j] == if j < i {
                        apply_op(op, pre[j], other@[j])
                    } else {
                        pre[j]
                    },
            decreases n - i,
        {
            let v = bit_op(op, self.get(i), other.get(i));
            self.set(i, v);
            i = i + 1;
        }
        assert(self@ =~= combine_bits(op, pre, other@));
    }

    /// A new buffer: `self` with the bits `[start, end)` replaced by those of
    /// `source`.
    pub fn spliced(&self, start: usize, end: usize, source: &BitBuffer) -> (r: BitBuffer)
        requires
            self.wf(),
            source.wf(),
            start <= end <= self@.len(),
            self@.len() - (end - start) + source@.len() <= usize::MAX,
        ensures
            r.wf(),
            r@ == splice_bits(self@, start as int, end as int, source@),
    {
        let n = self.len();
        let m = source.len();
        let mut buf = self.slice(0, start);
        let mut i: usize = 0;
        while i < m
            invariant
                self.wf(),
                start <= end <= self@.len(),
                source.wf(),
                m == source@.len(),
                i <= m,
                start + m <= usize::MAX,
                buf.wf(),
                buf@ == self@.subrange(0, start as int) + source@.subrange(0, i as int),
            decreases m - i,
        {
            buf.push(source.get(i));
            i = i + 1;
            assert(buf@ =~= self@.subrange(0, start as int) + source@.subrange(0, i as int));
        }
        assert(source@.subrange(0, m as int) =~= source@);
        let ghost head = buf@;
        let mut j: usize = end;
        while j < n
            invariant
                self.wf(),
                n == self@.len(),
                end <= j <= n,
                head.len() == start + m,
                start + m + (n - end) <= usize::MAX,
                buf.wf(),
                buf@ == head + self@.subrange(end as int, j as int),
            decreases n - j,
        {
            buf.push(self.get(j));
            j = j + 1;
            assert(buf@ =~= head + self@.subrange(end as int, j as int));
        }
        buf
    }

    /// Whether the non-empty `pat` occurs in `self` starting at `p`.
    pub fn occurs_at(&self, pat: &BitBuffer, p: usize) -> (r: bool)
        requires
            self.wf(),
            pat.wf(),
        ensures
            r == occurs_at(self@, pat@, p as int),
    {
        let n = self.len();
        let m = pat.len();
        if m == 0 || p > n || m > n - p {
            return false;
        }
        let mut k: usize = 0;
        while k < m
            invariant
                self.wf(),
                pat.wf(),
                n == self@.len(),
                m == pat@.len(),
                p + m <= n,
                k <= m,
                forall|q: int| 0 <= q < k ==> self@[p + q] == pat@[q],
            decreases m - k,
        {
            if self.get(p + k) != pat.get(k) {
                assert(self@.subrange(p as int, p + m)[k as int] != pat@[k as int]);
                return false;
            }
            k = k + 1;
        }
        assert(self@.subrange(p as int, p + m) =~= pat@);
        true
    }

    /// The first position at or after `from` where the non-empty `pat`
    /// occurs in `self`, if any.
    pub fn find_from(&self, pat: &BitBuffer, from: usize) -> (r: Option<usize>)
        requires
            self.wf(),
            pat.wf(),
        ensures
            r matches Some(p) ==> from <= p && occurs_at(self@, pat@, p as int) && forall|q: int|
                from <= q < p ==> !occurs_at(self@, pat@, q),
            r is None ==> forall|q: int| from <= q ==> !occurs_at(self@, pat@, q),
    {
        let n = self.len();
        let mut p: usize = from;
        while p < n
            invariant
                self.wf(),
                pat.wf(),
                n == self@.len(),
                from <= p,
                forall|q: int| from <= q < p ==> !occurs_at(self@, pat@, q),
            decreases n - p,
        {
            if self.occurs_at(pat, p) {
                return Some(p);
            }
            p = p + 1;
        }
        None
    }
}

} // verus!

//! Lazy traversals of a bit collection: bit by bit, in chunks of a fixed
//! width, and over the positions where a pattern occurs. Each takes a copy
//! of the source's bits when it is made, so later changes to the source do
//! not reach it.

use crate::buffer::BitBuffer;
use crate::collection::BitCollection;
use crate::error::BitsError;
use crate::immutable::Tibs;
use crate::ops::occurs_at;
use vstd::prelude::*;

verus! {

/// Yields the bits of a collection in order, one `bool` per position.
pub struct BoolIterator {
    source: BitBuffer,
    pos: usize,
}

impl BoolIterator {
    /// The bits being traversed.
    pub closed spec fn source_bits(&self) -> Seq<bool> {
        self.source@
    }

    /// The position of the next bit to yield.
    pub closed spec fn position(&self) -> int {
        self.pos as int
    }

    /// The copy is well formed and the position lies within it.
    pub closed spec fn wf(&self) -> bool {
        self.source.wf() && self.pos <= self.source@.len()
    }

    /// An iterator at the first bit of `source`.
    pub fn new<C: BitCollection>(source: &C) -> (r: BoolIterator)
        requires
            source.wf(),
        ensures
            r.wf(),
            r.source_bits() == source.bits(),
            r.position() == 0,
    {
        BoolIterator { source: source.buffer().copy(), pos: 0 }
    }

    /// The next bit, or `None` once every bit has been yielded.
    pub fn next(&mut self) -> (r: Option<bool>)
        requires
            old(self).wf(),
        ensures
            final(self).wf(),
            final(self).source_bits() == old(self).source_bits(),
            old(self).position() < old(self).source_bits().len() ==> r == Some(
                old(self).source_bits()[old(self).position()],
            ) && final(self).position() == old(self).position() + 1,
            old(self).position() == old(self).source_bits().len() ==> r is None
                && final(self).position() == old(self).position(),
    {
        if self.pos >= self.source.len() {
            return None;
        }
        let v = self.source.get(self.pos);
        self.pos = self.pos + 1;
        Some(v)
    }

    /// Starts the traversal again from the first bit.
    pub fn restart(&mut self)
        requires
            old(self).wf(),
        ensures
            final(self).wf(),
            final(self).source_bits() == old(self).source_bits(),
            final(self).position() == 0,
    {
        self.pos = 0;
    }
}

/// Yields consecutive pieces of a collection, each `width` bits long but the
/// last, which holds what remains when the length is not a multiple of
/// `width`.
pub struct ChunksIterator {
    source: BitBuffer,
    width: usize,
    pos: usize,
}

impl ChunksIterator {
    /// The bits being cut into chunks.
    pub closed spec fn source_bits(&self) -> Seq<bool> {
        self.source@
    }

    /// The width of each chunk but the last.
    pub closed spec fn chunk_width(&self) -> int {
        self.width as int
    }

    /// The position where the next chunk starts.
    pub closed spec fn position(&self) -> int {
        self.pos as int
    }

    /// The copy is well formed, the position lies within it, and the width
    /// is positive.
    pub closed spec fn wf(&self) -> bool {
        self.source.wf() && self.pos <= self.source@.len() && self.width > 0
    }

    /// An iterator over the chunks of `source` of `width` bits;
    /// `InvalidChunkWidth` when `width` is zero.
    pub fn new<C: BitCollection>(source: &C, width: usize) -> (r: Result<ChunksIterator, BitsError>)
        requires
            source.wf(),
        ensures
            r is Ok <==> width > 0,
            r matches Ok(it) ==> it.wf() && it.source_bits() == source.bits() && it.chunk_width()
                == width && it.position() == 0,
            r matches Err(e) ==> e == BitsError::InvalidChunkWidth,
    {
        if width == 0 {
            return Err(BitsError::InvalidChunkWidth);
        }
        Ok(ChunksIterator { source: source.buffer().copy(), width, pos: 0 })
    }

    /// The next chunk: the bits from the current position up to `width`
    /// further or to the end, whichever comes first; `None` at the end.
    pub fn next(&mut self) -> (r: Option<Tibs>)
        requires
            old(self).wf(),
        ensures
            final(self).wf(),
            final(self).source_bits() == old(self).source_bits(),
            final(self).chunk_width() == old(self).chunk_width(),
            ({
                let p = old(self).position();
                let n = old(self).source_bits().len() as int;
                let q = if p + old(self).chunk_width() < n {
                    p + old(self).chunk_width()
                } else {
                    n
                };
                if p < n {
                    r matches Some(c) && c.wf() && c.bits() == old(self).source_bits().subrange(p, q)
                        && final(self).position() == q
                } else {
                    r is None && final(self).position() == p
                }
            }),
    {
        let n = self.source.len();
        if self.pos >= n {
            return None;
        }
        let end = if self.width < n - self.pos {
            self.pos + self.width
        } else {
            n
        };
        let chunk = Tibs::from_buffer(self.source.slice(self.pos, end));
        self.pos = end;
        Some(chunk)
    }
}

/// Yields, left to right, each position where a pattern occurs in a
/// collection. Occurrences may overlap: after a match at `p` the search goes
/// on from `p + 1`. An empty pattern occurs nowhere.
pub struct FindAllIterator {
    source: BitBuffer,
    pattern: BitBuffer,
    pos: usize,
}

impl FindAllIterator {
    /// The bits being searched.
    pub closed spec fn source_bits(&self) -> Seq<bool> {
        self.source@
    }

    /// The bits searched for.
    pub closed spec fn pattern_bits(&self) -> Seq<bool> {
        self.pattern@
    }

    /// The position where the search goes on.
    pub closed spec fn position(&self) -> int {
        self.pos as int
    }

    /// Both copies are well formed and the position lies within the source.
    pub closed spec fn wf(&self) -> bool {
        self.source.wf() && self.pattern.wf() && self.pos <= self.source@.len()
    }

    /// An iterator over the occurrences of `pattern` in `source`.
    pub fn new<C: BitCollection, P: BitCollection>(source: &C, pattern: &P) -> (r: FindAllIterator)
        requires
            source.wf(),
            pattern.wf(),
        ensures
            r.wf(),
            r.source_bits() == source.bits(),
            r.pattern_bits() == pattern.bits(),
            r.position() == 0,
    {
        FindAllIterator { source: source.buffer().copy(), pattern: pattern.buffer().copy(), pos: 0 }
    }

    /// The first position at or after the current one where the pattern
    /// occurs, or `None` when there is none.
    pub fn next(&mut self) -> (r: Option<usize>)
        requires
            old(self).wf(),
        ensures
            final(self).wf(),
            final(self).source_bits() == old(self).source_bits(),
            final(self).pattern_bits() == old(self).pattern_bits(),
            r matches Some(p) ==> old(self).position() <= p && occurs_at(
                old(self).source_bits(),
                old(self).pattern_bits(),
                p as int,
            ) && (forall|q: int|
                old(self).position() <= q < p ==> !occurs_at(
                    old(self).source_bits(),
                    old(self).pattern_bits(),
                    q,
                )) && final(self).position() == p + 1,
            r is None ==> forall|q: int|
                old(self).position() <= q ==> !occurs_at(
                    old(self).source_bits(),
                    old(self).pattern_bits(),
                    q,
                ),
    {
        let n = self.source.len();
        match self.source.find_from(&self.pattern, self.pos) {
            Some(p) => {
                self.pos = p + 1;
                Some(p)
            },
            None => None,
        }
    }
}

} // verus!

//! The bit buffer: bits packed into bytes, most significant bit first.

use vstd::prelude::*;

verus! {

/// Bit `k` (0 is the most significant) of the byte `b`.
pub open spec fn byte_bit(b: u8, k: u8) -> bool {
    (b >> ((7 - k) as u8)) & 1u8 == 1u8
}

/// `b` with bit `k` (0 is the most significant) set to `v`.
pub open spec fn with_bit(b: u8, k: u8, v: bool) -> u8 {
    if v {
        b | (0x80u8 >> k)
    } else {
        b & !(0x80u8 >> k)
    }
}

proof fn lemma_with_bit(b: u8, k: u8, v: bool, j: u8)
    requires
        k < 8,
        j < 8,
    ensures
        byte_bit(with_bit(b, k, v), j) == if j == k {
            v
        } else {
            byte_bit(b, j)
        },
{
    if v {
        assert(byte_bit(b | (0x80u8 >> k), j) == if j == k {
            true
        } else {
            byte_bit(b, j)
        }) by (bit_vector)
            requires
                k < 8,
                j < 8,
        ;
    } else {
        assert(byte_bit(b & !(0x80u8 >> k), j) == if j == k {
            false
        } else {
            byte_bit(b, j)
        }) by (bit_vector)
            requires
                k < 8,
                j < 8,
        ;
    }
}

proof fn lemma_zero_byte(j: u8)
    requires
        j < 8,
    ensures
        !byte_bit(0u8, j),
{
    assert(!byte_bit(0u8, j)) by (bit_vector)
        requires
            j < 8,
    ;
}

/// The bits of a run of bytes, eight per byte, most significant first.
pub open spec fn bits_of_bytes(b: Seq<u8>) -> Seq<bool> {
    Seq::new(8 * b.len(), |i: int| byte_bit(b[i / 8], (i % 8) as u8))
}

/// Storage for a sequence of bits. Bit `i` is bit `i % 8` of byte `i / 8`,
/// counting from the most significant end; the bits of the last byte past
/// `length` are kept at zero.
pub struct BitBuffer {
    storage: Vec<u8>,
    length: usize,
}

impl View for BitBuffer {
    type V = Seq<bool>;

    closed spec fn view(&self) -> Seq<bool> {
        Seq::new(self.length as nat, |i: int| self.bit_at(i))
    }
}

impl BitBuffer {
    /// The packed bit at position `i` of the storage, padding included.
    pub closed spec fn bit_at(&self, i: int) -> bool {
        byte_bit(self.storage@[i / 8], (i % 8) as u8)
    }

    /// The storage holds exactly as many bytes as the bits need, and the
    /// padding bits are zero.
    pub closed spec fn wf(&self) -> bool {
        &&& self.storage@.len() * 8 >= self.length
        &&& self.storage@.len() * 8 - self.length < 8
        &&& forall|i: int|
            self.length <= i < self.storage@.len() * 8 ==> !#[trigger] self.bit_at(i)
    }

    /// The packed bytes, padding bits included.
    pub closed spec fn bytes(&self) -> Seq<u8> {
        self.storage@
    }

    /// An empty buffer.
    pub fn new() -> (r: BitBuffer)
        ensures
            r.wf(),
            r@.len() == 0,
    {
        BitBuffer { storage: Vec::new(), length: 0 }
    }

    /// A buffer of the bits of `bytes`, eight per byte.
    pub fn from_bytes(bytes: &[u8]) -> (r: BitBuffer)
        requires
            8 * bytes@.len() <= usize::MAX,
        ensures
            r.wf(),
            r@ == bits_of_bytes(bytes@),
    {
        let mut storage: Vec<u8> = Vec::new();
        let mut i: usize = 0;
        while i < bytes.len()
            invariant
                i <= bytes@.len(),
                storage@ == bytes@.subrange(0, i as int),
            decreases bytes@.len() - i,
        {
            storage.push(bytes[i]);
            i = i + 1;
            assert(storage@ =~= bytes@.subrange(0, i as int));
        }
        assert(storage@ =~= bytes@);
        let r = BitBuffer { storage, length: 8 * bytes.len() };
        assert(r@ =~= bits_of_bytes(bytes@));
        r
    }

    /// The number of bits.
    pub fn len(&self) -> (r: usize)
        requires
            self.wf(),
        ensures
            r == self@.len(),
    {
        self.length
    }

    /// The bit at position `i`.
    pub fn get(&self, i: usize) -> (r: bool)
        requires
            self.wf(),
            i < self@.len(),
        ensures
            r == self@[i as int],
    {
        let k: u8 = (i % 8) as u8;
        let b: u8 = self.storage[i / 8];
        (b >> (7 - k)) & 1u8 == 1u8
    }

    /// Overwrites the bit at position `i` with `v`.
    pub fn set(&mut self, i: usize, v: bool)
        requires
            old(self).wf(),
            i < old(self)@.len(),
        ensures
            final(self).wf(),
            final(self)@ == old(self)@.update(i as int, v),
    {
        let k: u8 = (i % 8) as u8;
        let b: u8 = self.storage[i / 8];
        let nb: u8 = if v {
            b | (0x80u8 >> k)
        } else {
            b & !(0x80u8 >> k)
        };
        let ghost pre = *self;
        self.storage.set(i / 8, nb);
        proof {
            assert forall|j: int| 0 <= j < self.storage@.len() * 8 implies #[trigger] self.bit_at(j)
                == if j == i {
                v
            } else {
                pre.bit_at(j)
            } by {
                if j / 8 == i / 8 {
                    lemma_with_bit(b, k, v, (j % 8) as u8);
                }
            }
            assert(self@ =~= pre@.update(i as int, v));
        }
    }

    /// Appends the bit `v` at the end.
    pub fn push(&mut self, v: bool)
        requires
            old(self).wf(),
            old(self)@.len() < usize::MAX,
        ensures
            final(self).wf(),
            final(self)@ == old(self)@.push(v),
    {
        let ghost pre = *self;
        if self.length % 8 == 0 {
            self.storage.push(0u8);
        }
        proof {
            assert forall|j: int| 0 <= j < self.storage@.len() * 8 implies #[trigger] self.bit_at(j)
                == if j < pre.length {
                pre.bit_at(j)
            } else {
                false
            } by {
                if j >= pre.storage@.len() * 8 {
                    lemma_zero_byte((j % 8) as u8);
                } else {
                    assert(self.storage@[j / 8] == pre.storage@[j / 8]);
                    if j >= pre.length {
                        assert(!pre.bit_at(j));
                    }
                }
            }
        }
        let ghost mid = *self;
        self.length = self.length + 1;
        assert forall|j: int| 0 <= j < self.storage@.len() * 8 implies #[trigger] self.bit_at(j)
            == mid.bit_at(j) by {
            assert(self.storage@[j / 8] == mid.storage@[j / 8]);
        }
        assert(self@ =~= pre@.push(false));
        self.set(self.length - 1, v);
        assert(self@ =~= pre@.push(v));
    }
}

} // verus!

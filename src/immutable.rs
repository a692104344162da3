//! The immutable bit collection, whose buffer may be shared by many owners.

use crate::buffer::BitBuffer;
use crate::collection::BitCollection;
use crate::mutibs::Mutibs;
use std::sync::Arc;
use vstd::prelude::*;

verus! {

/// A read-only sequence of bits. Its buffer is never written after
/// construction, so clones share it.
pub struct Tibs {
    data: Arc<BitBuffer>,
}

impl BitCollection for Tibs {
    closed spec fn bits(&self) -> Seq<bool> {
        (*self.data)@
    }

    closed spec fn wf(&self) -> bool {
        (*self.data).wf()
    }

    fn buffer(&self) -> (r: &BitBuffer) {
        &self.data
    }

    fn from_buffer(b: BitBuffer) -> (r: Tibs) {
        Tibs { data: Arc::new(b) }
    }
}

impl Tibs {
    /// Another owner of the same bits.
    pub fn share(&self) -> (r: Tibs)
        requires
            self.wf(),
        ensures
            r.wf(),
            r.bits() == self.bits(),
    {
        Tibs { data: Arc::clone(&self.data) }
    }

    /// A mutable copy of these bits, which shares no storage with them.
    pub fn to_mutable(&self) -> (r: Mutibs)
        requires
            self.wf(),
        ensures
            r.wf(),
            r.bits() == self.bits(),
    {
        Mutibs::from_buffer(self.buffer().copy())
    }
}

} // verus!

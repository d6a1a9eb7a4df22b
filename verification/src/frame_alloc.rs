//! The physical frame allocator, modelled as an explicit free list.
//!
//! The allocator owns the physical frames that are not yet backing any
//! mapping; `allocate` hands out the most recently added free frame. Frames
//! are identified by the physical address of their first byte.

use vstd::prelude::*;

use crate::page::PAGE_SIZE;

verus! {

pub struct FrameAllocator {
    free: Vec<usize>,
}

impl View for FrameAllocator {
    type V = Seq<usize>;

    /// The physical addresses of the free frames, in the order they were
    /// added; `allocate` takes from the end.
    closed spec fn view(&self) -> Seq<usize> {
        self.free@
    }
}

impl FrameAllocator {
    /// Every free frame starts at a page boundary.
    pub closed spec fn wf(&self) -> bool {
        forall|i: int| 0 <= i < self.free@.len() ==> #[trigger] self.free@[i] % PAGE_SIZE == 0
    }

    pub fn new(frames: Vec<usize>) -> (r: FrameAllocator)
        requires
            forall|i: int| 0 <= i < frames@.len() ==> #[trigger] frames@[i] % PAGE_SIZE == 0,
        ensures
            r.wf(),
            r@ == frames@,
    {
        FrameAllocator { free: frames }
    }

    /// Hands out the most recently added free frame, or `None` when no
    /// physical memory is left.
    pub fn allocate(&mut self) -> (r: Option<usize>)
        requires
            old(self).wf(),
        ensures
            final(self).wf(),
            old(self)@.len() > 0 ==> r == Some(old(self)@.last())
                && final(self)@ == old(self)@.drop_last(),
            old(self)@.len() == 0 ==> r == None::<usize> && final(self)@ == old(self)@,
    {
        let r = self.free.pop();
        proof {
            if old(self)@.len() > 0 {
                assert(final(self)@ =~= old(self)@.drop_last());
            }
        }
        r
    }

    /// How many free frames are left.
    pub fn free_frames(&self) -> (r: usize)
        ensures
            r == self@.len(),
    {
        self.free.len()
    }
}

} // verus!

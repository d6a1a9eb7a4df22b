//! The kernel's view of physical page contents.
//!
//! Physical memory is modelled as a finite map from a frame's physical
//! address to the bytes its page currently holds. The model also carries the
//! base of the kernel's linear translation window, so that the
//! physical-to-virtual translation a `Linear` region must agree with can be
//! stated.

use vstd::prelude::*;

use vstd::hash_map::HashMapWithView;

use crate::page::PAGE_SIZE;

verus! {

/// Physical page contents, keyed by the frame's physical address.
pub struct PhysMemory {
    kernel_base: usize,
    pages: HashMapWithView<usize, Vec<u8>>,
}

impl View for PhysMemory {
    type V = Map<usize, Seq<u8>>;

    closed spec fn view(&self) -> Map<usize, Seq<u8>> {
        Map::new(
            |pa: usize| self.pages@.contains_key(pa),
            |pa: usize| self.pages@[pa]@,
        )
    }
}

impl PhysMemory {
    /// Every page on record holds exactly one page worth of bytes.
    pub closed spec fn wf(&self) -> bool {
        forall|pa: usize| #[trigger]
            self.pages@.contains_key(pa) ==> self.pages@[pa]@.len() == PAGE_SIZE
    }

    /// The base of the kernel's linear translation window.
    pub closed spec fn spec_kernel_base(&self) -> usize {
        self.kernel_base
    }

    /// The virtual address at which kernel code addresses the physical
    /// address `pa`.
    pub open spec fn kernel_view(&self, pa: usize) -> int {
        pa + self.spec_kernel_base()
    }

    /// Fresh physical memory with no page contents on record.
    pub fn new(kernel_base: usize) -> (r: PhysMemory)
        ensures
            r.wf(),
            r@ == Map::<usize, Seq<u8>>::empty(),
            r.spec_kernel_base() == kernel_base,
    {
        let r = PhysMemory { kernel_base, pages: HashMapWithView::new() };
        proof {
            assert(r@ =~= Map::<usize, Seq<u8>>::empty());
        }
        r
    }

    /// Replaces (or first records) the contents of the page at `pa`.
    pub fn write_page(&mut self, pa: usize, data: Vec<u8>)
        requires
            old(self).wf(),
            data@.len() == PAGE_SIZE,
        ensures
            final(self).wf(),
            final(self)@ == old(self)@.insert(pa, data@),
            final(self).spec_kernel_base() == old(self).spec_kernel_base(),
    {
        let ghost pre = *self;
        self.pages.insert(pa, data);
        proof {
            assert(self@ =~= pre@.insert(pa, data@));
        }
    }

    /// A copy of the bytes the page at `pa` currently holds.
    pub fn copy_page(&self, pa: usize) -> (r: Vec<u8>)
        requires
            self.wf(),
            self@.contains_key(pa),
        ensures
            r@ == self@[pa],
            r@.len() == PAGE_SIZE,
    {
        let page = match self.pages.get(&pa) {
            Some(p) => p,
            None => vstd::pervasive::unreached(),
        };
        let mut out: Vec<u8> = Vec::new();
        let mut i: usize = 0;
        while i < page.len()
            invariant
                i <= page@.len(),
                out@ == page@.subrange(0, i as int),
            decreases page@.len() - i,
        {
            out.push(page[i]);
            i = i + 1;
            proof {
                assert(out@ =~= page@.subrange(0, i as int));
            }
        }
        proof {
            assert(out@ =~= page@);
        }
        out
    }

    /// The base of the kernel's linear translation window.
    pub fn kernel_base(&self) -> (r: usize)
        ensures
            r == self.spec_kernel_base(),
    {
        self.kernel_base
    }
}

} // verus!

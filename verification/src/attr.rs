//! The attribute descriptor applied to a freshly installed mapping.
//!
//! The descriptor is an opaque bundle of protection and caching bits. This
//! core only carries it to the page-table entry; it never interprets the
//! bits.

use vstd::prelude::*;

use crate::page_table::PageEntry;
use crate::page_table::PageTable;

verus! {

#[derive(Clone, Copy, Debug)]
pub struct MemoryAttr {
    bits: usize,
}

impl MemoryAttr {
    /// The bits this descriptor sets on an entry.
    pub closed spec fn bits(&self) -> usize {
        self.bits
    }

    pub fn new(bits: usize) -> (r: MemoryAttr)
        ensures
            r.bits() == bits,
    {
        MemoryAttr { bits }
    }

    /// Sets this descriptor's bits on the entry at `va`, leaving the
    /// entry's physical address unchanged.
    pub fn apply(&self, pt: &mut PageTable, va: usize)
        requires
            old(pt)@.contains_key(va),
        ensures
            final(pt)@ == old(pt)@.insert(
                va,
                PageEntry { pa: old(pt)@[va].pa, attr: self.bits() },
            ),
    {
        pt.set_attr(va, self.bits);
    }
}

} // verus!

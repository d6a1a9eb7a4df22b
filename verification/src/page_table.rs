//! The page table, modelled as a finite map from virtual page addresses to
//! installed entries.
//!
//! An entry records the physical address backing the page and the attribute
//! bits applied to it. The location of an entry within a table is identified
//! by the virtual address that selects it; `map` returns that location so a
//! caller can hand it to the replacement registry.

use vstd::prelude::*;

use vstd::hash_map::HashMapWithView;

verus! {

/// One installed mapping: the physical address of the backing page and the
/// attribute bits currently set on the entry.
#[derive(Clone, Copy, PartialEq, Eq, Structural, Debug)]
pub struct PageEntry {
    pub pa: usize,
    pub attr: usize,
}

/// A page table: a finite map from virtual page addresses to entries.
pub struct PageTable {
    entries: HashMapWithView<usize, PageEntry>,
}

impl View for PageTable {
    type V = Map<usize, PageEntry>;

    closed spec fn view(&self) -> Map<usize, PageEntry> {
        self.entries@
    }
}

/// What `lookup` returns: the entry installed at `va`, or `None` when the
/// address is not mapped.
pub open spec fn spec_lookup(pt: PageTable, va: usize) -> Option<PageEntry> {
    if pt@.contains_key(va) {
        Some(pt@[va])
    } else {
        None
    }
}

impl PageTable {
    /// An empty table: no address is mapped.
    pub fn new() -> (r: PageTable)
        ensures
            r@ == Map::<usize, PageEntry>::empty(),
    {
        PageTable { entries: HashMapWithView::new() }
    }

    /// Installs a new entry mapping `va` to `pa`, with no attribute bits
    /// set yet, and returns the location of the installed entry.
    pub fn map(&mut self, va: usize, pa: usize) -> (loc: usize)
        requires
            !old(self)@.contains_key(va),
        ensures
            final(self)@ == old(self)@.insert(va, PageEntry { pa, attr: 0 }),
            loc == va,
    {
        self.entries.insert(va, PageEntry { pa, attr: 0 });
        va
    }

    /// Removes the entry at `va`.
    pub fn unmap(&mut self, va: usize)
        requires
            old(self)@.contains_key(va),
        ensures
            final(self)@ == old(self)@.remove(va),
    {
        let _ = self.entries.remove(&va);
    }

    /// The entry installed at `va`, or `None` when the address is not
    /// mapped.
    pub fn lookup(&self, va: usize) -> (r: Option<PageEntry>)
        ensures
            r == spec_lookup(*self, va),
    {
        match self.entries.get(&va) {
            Some(e) => Some(*e),
            None => None,
        }
    }

    /// Overwrites the attribute bits of the entry at `va`, leaving its
    /// physical address unchanged.
    pub fn set_attr(&mut self, va: usize, bits: usize)
        requires
            old(self)@.contains_key(va),
        ensures
            final(self)@ == old(self)@.insert(
                va,
                PageEntry { pa: old(self)@[va].pa, attr: bits },
            ),
    {
        let e = match self.entries.get(&va) {
            Some(e) => *e,
            None => vstd::pervasive::unreached(),
        };
        self.entries.insert(va, PageEntry { pa: e.pa, attr: bits });
    }
}

} // verus!

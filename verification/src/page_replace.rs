//! The page-replacement registry.
//!
//! Frames mapped under the swappable policy are handed to this registry,
//! which from then on owns their eviction scheduling. The registry is
//! modelled as the sequence of registrations it has accepted: each one the
//! frame's physical address together with the location of the page-table
//! entry that maps it. The caller passes the registry in under its own
//! mutual exclusion; registration never fails.

use vstd::prelude::*;

verus! {

pub struct PageReplaceRegistry {
    records: Vec<(usize, usize)>,
}

impl View for PageReplaceRegistry {
    type V = Seq<(usize, usize)>;

    /// The registrations accepted so far, oldest first: each a pair of the
    /// frame's physical address and the location of its page-table entry.
    closed spec fn view(&self) -> Seq<(usize, usize)> {
        self.records@
    }
}

impl PageReplaceRegistry {
    /// A registry that has accepted no registrations yet.
    pub fn new() -> (r: PageReplaceRegistry)
        ensures
            r@ == Seq::<(usize, usize)>::empty(),
    {
        PageReplaceRegistry { records: Vec::new() }
    }

    /// Registers `frame` as eligible for eviction, recording the location
    /// of the page-table entry that maps it.
    pub fn push_frame(&mut self, frame: usize, entry_loc: usize)
        ensures
            final(self)@ == old(self)@.push((frame, entry_loc)),
    {
        self.records.push((frame, entry_loc));
    }

    /// How many registrations the registry has accepted.
    pub fn count(&self) -> (r: usize)
        ensures
            r == self@.len(),
    {
        self.records.len()
    }

    /// The `i`-th registration, oldest first.
    pub fn record(&self, i: usize) -> (r: (usize, usize))
        requires
            i < self@.len(),
        ensures
            r == self@[i as int],
    {
        self.records[i]
    }
}

} // verus!

//! The mapping strategies: how a region's pages are physically backed.
//!
//! A `MemoryHandler` installs, removes, fills and duplicates mappings in a
//! page table. `Linear` recomputes the physical address from a fixed offset
//! and owns no frames; `ByFrame` backs every mapped page with a freshly
//! allocated frame; `ByFrameWithRpa` does the same and additionally hands
//! each frame to the page-replacement registry, which from then on owns its
//! eviction scheduling.
//!
//! Each operation's meaning is stated per strategy through the trait's spec
//! functions, so a caller that knows the concrete strategy knows the exact
//! effect on the page table, the allocator, the registry and physical
//! memory. Resource exhaustion and invariant violations are fatal at this
//! layer: the preconditions exclude them rather than surface them as
//! recoverable errors.

use vstd::prelude::*;

use crate::attr::MemoryAttr;
use crate::frame_alloc::FrameAllocator;
use crate::page::PAGE_SIZE;
use crate::page::page_filled;
use crate::page_replace::PageReplaceRegistry;
use crate::page_table::PageEntry;
use crate::page_table::PageTable;
use crate::page_table::spec_lookup;
use crate::phys_memory::PhysMemory;

verus! {

/// Whether some entry of `pt` is backed by the frame at `pa`.
pub open spec fn frame_mapped(pt: PageTable, pa: usize) -> bool {
    exists|va: usize| #[trigger] pt@.contains_key(va) && pt@[va].pa == pa
}

/// Whether every frame the allocator still holds is genuinely free with
/// respect to `pt`: none of them already backs an entry there.
pub open spec fn frames_fresh_for(allocator: FrameAllocator, pt: PageTable) -> bool {
    forall|i: int| 0 <= i < allocator@.len() ==> !frame_mapped(pt, #[trigger] allocator@[i])
}

/// One backing policy for a memory region's pages.
///
/// Every operation takes the page table it mutates; the allocator and the
/// registry are passed in as handles so that no operation reaches for
/// ambient global state. Strategies are plain values: duplicating a region
/// duplicates its strategy by structural copy.
pub trait MemoryHandler: Sized {
    /// When `map` may be invoked.
    spec fn map_req(&self, pt: PageTable, allocator: FrameAllocator, va: usize) -> bool;

    /// What `map` did: how the new page table, allocator and registry
    /// relate to the old ones.
    spec fn map_ens(
        &self,
        pt: PageTable,
        new_pt: PageTable,
        allocator: FrameAllocator,
        new_allocator: FrameAllocator,
        reg: PageReplaceRegistry,
        new_reg: PageReplaceRegistry,
        va: usize,
        attr: MemoryAttr,
    ) -> bool;

    /// When `page_copy` may be invoked.
    spec fn page_copy_req(
        &self,
        pt: PageTable,
        mem: PhysMemory,
        va: usize,
        src: Seq<u8>,
        length: int,
    ) -> bool;

    /// What `page_copy` did to physical memory.
    spec fn page_copy_ens(
        &self,
        pt: PageTable,
        mem: PhysMemory,
        new_mem: PhysMemory,
        va: usize,
        src: Seq<u8>,
        length: int,
    ) -> bool;

    /// When `clone_map` may be invoked.
    spec fn clone_map_req(
        &self,
        pt: PageTable,
        src_pt: PageTable,
        allocator: FrameAllocator,
        mem: PhysMemory,
        va: usize,
    ) -> bool;

    /// What `clone_map` did: how the new page table, allocator, registry
    /// and physical memory relate to the old ones and to the source table.
    spec fn clone_map_ens(
        &self,
        pt: PageTable,
        new_pt: PageTable,
        src_pt: PageTable,
        allocator: FrameAllocator,
        new_allocator: FrameAllocator,
        reg: PageReplaceRegistry,
        new_reg: PageReplaceRegistry,
        mem: PhysMemory,
        new_mem: PhysMemory,
        va: usize,
        attr: MemoryAttr,
    ) -> bool;

    /// Establishes a new mapping at `va` under this strategy's backing
    /// policy and applies `attr` to the installed entry.
    fn map(
        &self,
        pt: &mut PageTable,
        allocator: &mut FrameAllocator,
        reg: &mut PageReplaceRegistry,
        va: usize,
        attr: &MemoryAttr,
    )
        requires
            old(allocator).wf(),
            self.map_req(*old(pt), *old(allocator), va),
        ensures
            final(allocator).wf(),
            self.map_ens(
                *old(pt),
                *final(pt),
                *old(allocator),
                *final(allocator),
                *old(reg),
                *final(reg),
                va,
                *attr,
            ),
    ;

    /// Removes the mapping at `va`. Freeing the backing frame is the page
    /// table's or the registry's concern, not this core's.
    fn unmap(&self, pt: &mut PageTable, va: usize)
        requires
            old(pt)@.contains_key(va),
        ensures
            final(pt)@ == old(pt)@.remove(va),
    ;

    /// Copies the first `length` bytes of `src` into the page mapped at
    /// `va` and zero-fills the rest, so the page never retains stale bytes
    /// from a previous use of its frame. The address must already be
    /// mapped: calling this before `map` is a fatal precondition violation.
    fn page_copy(
        &self,
        pt: &mut PageTable,
        mem: &mut PhysMemory,
        va: usize,
        src: &Vec<u8>,
        length: usize,
    )
        requires
            old(mem).wf(),
            self.page_copy_req(*old(pt), *old(mem), va, src@, length as int),
        ensures
            *final(pt) == *old(pt),
            final(mem).wf(),
            self.page_copy_ens(*old(pt), *old(mem), *final(mem), va, src@, length as int),
    ;

    /// Establishes a mapping at `va` in `pt` equivalent to the one present
    /// in `src_pt`, with this strategy's ownership semantics: a `Linear`
    /// region recomputes the same physical target, a frame-backed region
    /// receives a fresh frame holding a snapshot of the source page.
    fn clone_map(
        &self,
        pt: &mut PageTable,
        src_pt: &PageTable,
        allocator: &mut FrameAllocator,
        reg: &mut PageReplaceRegistry,
        mem: &mut PhysMemory,
        va: usize,
        attr: &MemoryAttr,
    )
        requires
            old(allocator).wf(),
            old(mem).wf(),
            self.clone_map_req(*old(pt), *src_pt, *old(allocator), *old(mem), va),
        ensures
            final(allocator).wf(),
            final(mem).wf(),
            self.clone_map_ens(
                *old(pt),
                *final(pt),
                *src_pt,
                *old(allocator),
                *final(allocator),
                *old(reg),
                *final(reg),
                *old(mem),
                *final(mem),
                va,
                *attr,
            ),
    ;
}

/// Builds the full page image `page_filled(src, length)` and installs it at
/// `pa`: `length` bytes of `src`, then zeroes to the end of the page.
fn copy_into_page(mem: &mut PhysMemory, pa: usize, src: &Vec<u8>, length: usize)
    requires
        old(mem).wf(),
        length <= PAGE_SIZE,
        length <= src@.len(),
    ensures
        final(mem).wf(),
        final(mem)@ == old(mem)@.insert(pa, page_filled(src@, length as int)),
        final(mem).spec_kernel_base() == old(mem).spec_kernel_base(),
{
    let mut data: Vec<u8> = Vec::new();
    let mut i: usize = 0;
    while i < length
        invariant
            i <= length,
            length <= src@.len(),
            data@.len() == i,
            forall|j: int| 0 <= j < i ==> data@[j] == src@[j],
        decreases length - i,
    {
        data.push(src[i]);
        i = i + 1;
    }
    while data.len() < PAGE_SIZE
        invariant
            length <= data@.len() <= PAGE_SIZE,
            forall|j: int| 0 <= j < length ==> data@[j] == src@[j],
            forall|j: int| length <= j < data@.len() ==> data@[j] == 0,
        decreases PAGE_SIZE - data@.len(),
    {
        data.push(0u8);
    }
    proof {
        assert(data@ =~= page_filled(src@, length as int));
    }
    mem.write_page(pa, data);
}

/// A region whose physical backing sits at a fixed offset below its
/// virtual addresses: physical = virtual - offset. It owns no frames.
#[derive(Clone, Copy, Debug)]
pub struct Linear {
    offset: usize,
}

impl Linear {
    /// The fixed virtual-to-physical offset of this region.
    pub closed spec fn spec_offset(&self) -> usize {
        self.offset
    }

    pub fn new(off: usize) -> (r: Linear)
        ensures
            r.spec_offset() == off,
    {
        Linear { offset: off }
    }
}

impl MemoryHandler for Linear {
    open spec fn map_req(&self, pt: PageTable, allocator: FrameAllocator, va: usize) -> bool {
        &&& !pt@.contains_key(va)
        &&& va % PAGE_SIZE == 0
        &&& va >= self.spec_offset()
    }

    open spec fn map_ens(
        &self,
        pt: PageTable,
        new_pt: PageTable,
        allocator: FrameAllocator,
        new_allocator: FrameAllocator,
        reg: PageReplaceRegistry,
        new_reg: PageReplaceRegistry,
        va: usize,
        attr: MemoryAttr,
    ) -> bool {
        &&& new_pt@ == pt@.insert(
            va,
            PageEntry { pa: (va - self.spec_offset()) as usize, attr: attr.bits() },
        )
        &&& new_allocator == allocator
        &&& new_reg == reg
    }

    open spec fn page_copy_req(
        &self,
        pt: PageTable,
        mem: PhysMemory,
        va: usize,
        src: Seq<u8>,
        length: int,
    ) -> bool {
        &&& pt@.contains_key(va)
        &&& 0 <= length <= PAGE_SIZE
        &&& length <= src.len()
        &&& va == pt@[va].pa + self.spec_offset()
        &&& va == mem.kernel_view(pt@[va].pa)
    }

    open spec fn page_copy_ens(
        &self,
        pt: PageTable,
        mem: PhysMemory,
        new_mem: PhysMemory,
        va: usize,
        src: Seq<u8>,
        length: int,
    ) -> bool {
        &&& new_mem@ == mem@.insert(pt@[va].pa, page_filled(src, length))
        &&& new_mem.spec_kernel_base() == mem.spec_kernel_base()
    }

    open spec fn clone_map_req(
        &self,
        pt: PageTable,
        src_pt: PageTable,
        allocator: FrameAllocator,
        mem: PhysMemory,
        va: usize,
    ) -> bool {
        self.map_req(pt, allocator, va)
    }

    open spec fn clone_map_ens(
        &self,
        pt: PageTable,
        new_pt: PageTable,
        src_pt: PageTable,
        allocator: FrameAllocator,
        new_allocator: FrameAllocator,
        reg: PageReplaceRegistry,
        new_reg: PageReplaceRegistry,
        mem: PhysMemory,
        new_mem: PhysMemory,
        va: usize,
        attr: MemoryAttr,
    ) -> bool {
        &&& self.map_ens(pt, new_pt, allocator, new_allocator, reg, new_reg, va, attr)
        &&& new_mem == mem
    }

    fn map(
        &self,
        pt: &mut PageTable,
        _allocator: &mut FrameAllocator,
        _reg: &mut PageReplaceRegistry,
        va: usize,
        attr: &MemoryAttr,
    ) {
        let pa = va - self.offset;
        let _loc = pt.map(va, pa);
        attr.apply(pt, va);
        proof {
            assert(pt@ =~= old(pt)@.insert(
                va,
                PageEntry { pa: (va - self.spec_offset()) as usize, attr: attr.bits() },
            ));
        }
    }

    fn unmap(&self, pt: &mut PageTable, va: usize) {
        pt.unmap(va);
    }

    fn page_copy(
        &self,
        pt: &mut PageTable,
        mem: &mut PhysMemory,
        va: usize,
        src: &Vec<u8>,
        length: usize,
    ) {
        let e = match pt.lookup(va) {
            Some(e) => e,
            None => vstd::pervasive::unreached(),
        };
        copy_into_page(mem, e.pa, src, length);
    }

    /// Duplication of a linear region re-establishes the same deterministic
    /// mapping; there is nothing physical to copy.
    fn clone_map(
        &self,
        pt: &mut PageTable,
        _src_pt: &PageTable,
        allocator: &mut FrameAllocator,
        reg: &mut PageReplaceRegistry,
        _mem: &mut PhysMemory,
        va: usize,
        attr: &MemoryAttr,
    ) {
        self.map(pt, allocator, reg, va, attr);
    }
}

/// A region whose pages are each backed by a frame allocated at map time.
/// The strategy itself is stateless; each mapped page owns exactly one
/// frame.
#[derive(Clone, Copy, Debug)]
pub struct ByFrame;

impl ByFrame {
    pub fn new() -> (r: ByFrame)
        ensures
            r == (ByFrame {  }),
    {
        ByFrame {  }
    }
}

impl MemoryHandler for ByFrame {
    open spec fn map_req(&self, pt: PageTable, allocator: FrameAllocator, va: usize) -> bool {
        &&& !pt@.contains_key(va)
        &&& va % PAGE_SIZE == 0
        &&& allocator@.len() > 0
    }

    open spec fn map_ens(
        &self,
        pt: PageTable,
        new_pt: PageTable,
        allocator: FrameAllocator,
        new_allocator: FrameAllocator,
        reg: PageReplaceRegistry,
        new_reg: PageReplaceRegistry,
        va: usize,
        attr: MemoryAttr,
    ) -> bool {
        &&& new_pt@ == pt@.insert(va, PageEntry { pa: allocator@.last(), attr: attr.bits() })
        &&& new_allocator@ == allocator@.drop_last()
        &&& new_reg == reg
    }

    open spec fn page_copy_req(
        &self,
        pt: PageTable,
        mem: PhysMemory,
        va: usize,
        src: Seq<u8>,
        length: int,
    ) -> bool {
        &&& pt@.contains_key(va)
        &&& 0 <= length <= PAGE_SIZE
        &&& length <= src.len()
    }

    open spec fn page_copy_ens(
        &self,
        pt: PageTable,
        mem: PhysMemory,
        new_mem: PhysMemory,
        va: usize,
        src: Seq<u8>,
        length: int,
    ) -> bool {
        &&& new_mem@ == mem@.insert(pt@[va].pa, page_filled(src, length))
        &&& new_mem.spec_kernel_base() == mem.spec_kernel_base()
    }

    open spec fn clone_map_req(
        &self,
        pt: PageTable,
        src_pt: PageTable,
        allocator: FrameAllocator,
        mem: PhysMemory,
        va: usize,
    ) -> bool {
        &&& !pt@.contains_key(va)
        &&& va % PAGE_SIZE == 0
        &&& allocator@.len() > 0
        &&& src_pt@.contains_key(va)
        &&& mem@.contains_key(src_pt@[va].pa)
        &&& frames_fresh_for(allocator, src_pt)
    }

    open spec fn clone_map_ens(
        &self,
        pt: PageTable,
        new_pt: PageTable,
        src_pt: PageTable,
        allocator: FrameAllocator,
        new_allocator: FrameAllocator,
        reg: PageReplaceRegistry,
        new_reg: PageReplaceRegistry,
        mem: PhysMemory,
        new_mem: PhysMemory,
        va: usize,
        attr: MemoryAttr,
    ) -> bool {
        &&& new_pt@ == pt@.insert(va, PageEntry { pa: allocator@.last(), attr: attr.bits() })
        &&& new_allocator@ == allocator@.drop_last()
        &&& new_reg == reg
        &&& new_mem@ == mem@.insert(allocator@.last(), mem@[src_pt@[va].pa])
        &&& new_mem.spec_kernel_base() == mem.spec_kernel_base()
    }

    fn map(
        &self,
        pt: &mut PageTable,
        allocator: &mut FrameAllocator,
        _reg: &mut PageReplaceRegistry,
        va: usize,
        attr: &MemoryAttr,
    ) {
        let frame = match allocator.allocate() {
            Some(f) => f,
            None => vstd::pervasive::unreached(),
        };
        let _loc = pt.map(va, frame);
        attr.apply(pt, va);
        proof {
            assert(pt@ =~= old(pt)@.insert(
                va,
                PageEntry { pa: old(allocator)@.last(), attr: attr.bits() },
            ));
        }
    }

    fn unmap(&self, pt: &mut PageTable, va: usize) {
        pt.unmap(va);
    }

    fn page_copy(
        &self,
        pt: &mut PageTable,
        mem: &mut PhysMemory,
        va: usize,
        src: &Vec<u8>,
        length: usize,
    ) {
        let e = match pt.lookup(va) {
            Some(e) => e,
            None => vstd::pervasive::unreached(),
        };
        copy_into_page(mem, e.pa, src, length);
    }

    fn clone_map(
        &self,
        pt: &mut PageTable,
        src_pt: &PageTable,
        allocator: &mut FrameAllocator,
        reg: &mut PageReplaceRegistry,
        mem: &mut PhysMemory,
        va: usize,
        attr: &MemoryAttr,
    ) {
        self.map(pt, allocator, reg, va, attr);
        let spa = match src_pt.lookup(va) {
            Some(e) => e.pa,
            None => vstd::pervasive::unreached(),
        };
        let data = mem.copy_page(spa);
        let pa = match pt.lookup(va) {
            Some(e) => e.pa,
            None => vstd::pervasive::unreached(),
        };
        mem.write_page(pa, data);
    }
}

/// A frame-backed region whose frames are additionally registered with the
/// page-replacement registry: once mapped, the registry owns the frame's
/// eviction scheduling.
#[derive(Clone, Copy, Debug)]
pub struct ByFrameWithRpa;

impl ByFrameWithRpa {
    pub fn new() -> (r: ByFrameWithRpa)
        ensures
            r == (ByFrameWithRpa {  }),
    {
        ByFrameWithRpa {  }
    }
}

impl MemoryHandler for ByFrameWithRpa {
    open spec fn map_req(&self, pt: PageTable, allocator: FrameAllocator, va: usize) -> bool {
        &&& !pt@.contains_key(va)
        &&& va % PAGE_SIZE == 0
        &&& allocator@.len() > 0
    }

    open spec fn map_ens(
        &self,
        pt: PageTable,
        new_pt: PageTable,
        allocator: FrameAllocator,
        new_allocator: FrameAllocator,
        reg: PageReplaceRegistry,
        new_reg: PageReplaceRegistry,
        va: usize,
        attr: MemoryAttr,
    ) -> bool {
        &&& new_pt@ == pt@.insert(va, PageEntry { pa: allocator@.last(), attr: attr.bits() })
        &&& new_allocator@ == allocator@.drop_last()
        &&& new_reg@ == reg@.push((allocator@.last(), va))
    }

    open spec fn page_copy_req(
        &self,
        pt: PageTable,
        mem: PhysMemory,
        va: usize,
        src: Seq<u8>,
        length: int,
    ) -> bool {
        &&& pt@.contains_key(va)
        &&& 0 <= length <= PAGE_SIZE
        &&& length <= src.len()
    }

    open spec fn page_copy_ens(
        &self,
        pt: PageTable,
        mem: PhysMemory,
        new_mem: PhysMemory,
        va: usize,
        src: Seq<u8>,
        length: int,
    ) -> bool {
        &&& new_mem@ == mem@.insert(pt@[va].pa, page_filled(src, length))
        &&& new_mem.spec_kernel_base() == mem.spec_kernel_base()
    }

    open spec fn clone_map_req(
        &self,
        pt: PageTable,
        src_pt: PageTable,
        allocator: FrameAllocator,
        mem: PhysMemory,
        va: usize,
    ) -> bool {
        &&& !pt@.contains_key(va)
        &&& va % PAGE_SIZE == 0
        &&& allocator@.len() > 0
        &&& src_pt@.contains_key(va)
        &&& mem@.contains_key(src_pt@[va].pa)
        &&& frames_fresh_for(allocator, src_pt)
    }

    open spec fn clone_map_ens(
        &self,
        pt: PageTable,
        new_pt: PageTable,
        src_pt: PageTable,
        allocator: FrameAllocator,
        new_allocator: FrameAllocator,
        reg: PageReplaceRegistry,
        new_reg: PageReplaceRegistry,
        mem: PhysMemory,
        new_mem: PhysMemory,
        va: usize,
        attr: MemoryAttr,
    ) -> bool {
        &&& new_pt@ == pt@.insert(va, PageEntry { pa: allocator@.last(), attr: attr.bits() })
        &&& new_allocator@ == allocator@.drop_last()
        &&& new_reg@ == reg@.push((allocator@.last(), va))
        &&& new_mem@ == mem@.insert(allocator@.last(), mem@[src_pt@[va].pa])
        &&& new_mem.spec_kernel_base() == mem.spec_kernel_base()
    }

    fn map(
        &self,
        pt: &mut PageTable,
        allocator: &mut FrameAllocator,
        reg: &mut PageReplaceRegistry,
        va: usize,
        attr: &MemoryAttr,
    ) {
        let frame = match allocator.allocate() {
            Some(f) => f,
            None => vstd::pervasive::unreached(),
        };
        let loc = pt.map(va, frame);
        reg.push_frame(frame, loc);
        attr.apply(pt, va);
        proof {
            assert(pt@ =~= old(pt)@.insert(
                va,
                PageEntry { pa: old(allocator)@.last(), attr: attr.bits() },
            ));
        }
    }

    fn unmap(&self, pt: &mut PageTable, va: usize) {
        pt.unmap(va);
    }

    fn page_copy(
        &self,
        pt: &mut PageTable,
        mem: &mut PhysMemory,
        va: usize,
        src: &Vec<u8>,
        length: usize,
    ) {
        let e = match pt.lookup(va) {
            Some(e) => e,
            None => vstd::pervasive::unreached(),
        };
        copy_into_page(mem, e.pa, src, length);
    }

    /// Duplication for a swappable region is an eager copy with
    /// re-registration: the fresh frame is allocated and registered by this
    /// strategy's own `map`, then filled with a snapshot of the source
    /// page, so the duplicate stays under the registry's eviction tracking.
    fn clone_map(
        &self,
        pt: &mut PageTable,
        src_pt: &PageTable,
        allocator: &mut FrameAllocator,
        reg: &mut PageReplaceRegistry,
        mem: &mut PhysMemory,
        va: usize,
        attr: &MemoryAttr,
    ) {
        self.map(pt, allocator, reg, va, attr);
        let spa = match src_pt.lookup(va) {
            Some(e) => e.pa,
            None => vstd::pervasive::unreached(),
        };
        let data = mem.copy_page(spa);
        let pa = match pt.lookup(va) {
            Some(e) => e.pa,
            None => vstd::pervasive::unreached(),
        };
        mem.write_page(pa, data);
    }
}

/// After a `Linear` region maps `va`, looking `va` up yields the physical
/// address exactly one offset below it, carrying the applied attribute.
pub proof fn lemma_linear_map_lookup(
    h: Linear,
    pt: PageTable,
    new_pt: PageTable,
    allocator: FrameAllocator,
    new_allocator: FrameAllocator,
    reg: PageReplaceRegistry,
    new_reg: PageReplaceRegistry,
    va: usize,
    attr: MemoryAttr,
)
    requires
        h.map_req(pt, allocator, va),
        h.map_ens(pt, new_pt, allocator, new_allocator, reg, new_reg, va, attr),
    ensures
        spec_lookup(new_pt, va) == Some(
            PageEntry { pa: (va - h.spec_offset()) as usize, attr: attr.bits() },
        ),
{
}

/// After a `ByFrame` region maps `va` and then fills it from `src`, the
/// mapped page holds the first `length` bytes of `src` followed by zeroes:
/// no stale byte of the frame's previous use survives.
pub proof fn lemma_by_frame_map_then_fill(
    h: ByFrame,
    pt: PageTable,
    pt1: PageTable,
    allocator: FrameAllocator,
    allocator1: FrameAllocator,
    reg: PageReplaceRegistry,
    reg1: PageReplaceRegistry,
    mem: PhysMemory,
    mem1: PhysMemory,
    va: usize,
    attr: MemoryAttr,
    src: Seq<u8>,
    length: int,
)
    requires
        h.map_req(pt, allocator, va),
        h.map_ens(pt, pt1, allocator, allocator1, reg, reg1, va, attr),
        h.page_copy_req(pt1, mem, va, src, length),
        h.page_copy_ens(pt1, mem, mem1, va, src, length),
    ensures
        mem1@.contains_key(pt1@[va].pa),
        mem1@[pt1@[va].pa].len() == PAGE_SIZE,
        forall|i: int| 0 <= i < length ==> mem1@[pt1@[va].pa][i] == src[i],
        forall|i: int| length <= i < PAGE_SIZE ==> mem1@[pt1@[va].pa][i] == 0,
{
}

/// Duplicating a `ByFrame` mapping backs the duplicate with a frame
/// distinct from the source's and hands it a snapshot of the source page,
/// which the duplication itself leaves untouched.
pub proof fn lemma_by_frame_duplicate_snapshot(
    h: ByFrame,
    pt: PageTable,
    pt1: PageTable,
    src_pt: PageTable,
    allocator: FrameAllocator,
    allocator1: FrameAllocator,
    reg: PageReplaceRegistry,
    reg1: PageReplaceRegistry,
    mem: PhysMemory,
    mem1: PhysMemory,
    va: usize,
    attr: MemoryAttr,
)
    requires
        h.clone_map_req(pt, src_pt, allocator, mem, va),
        h.clone_map_ens(pt, pt1, src_pt, allocator, allocator1, reg, reg1, mem, mem1, va, attr),
    ensures
        pt1@.contains_key(va),
        pt1@[va].pa != src_pt@[va].pa,
        mem1@[pt1@[va].pa] == mem1@[src_pt@[va].pa],
        mem1@[src_pt@[va].pa] == mem@[src_pt@[va].pa],
{
    let pa = allocator@.last();
    assert(!frame_mapped(src_pt, pa));
    assert(src_pt@.contains_key(va) && src_pt@[va].pa == src_pt@[va].pa);
}

/// After the duplication, a write that replaces the duplicate's page does
/// not reach the source's page: the two copies are isolated.
pub proof fn lemma_duplicate_write_isolated(
    h: ByFrame,
    pt: PageTable,
    pt1: PageTable,
    src_pt: PageTable,
    allocator: FrameAllocator,
    allocator1: FrameAllocator,
    reg: PageReplaceRegistry,
    reg1: PageReplaceRegistry,
    mem: PhysMemory,
    mem1: PhysMemory,
    mem2: Map<usize, Seq<u8>>,
    va: usize,
    attr: MemoryAttr,
    w: Seq<u8>,
)
    requires
        h.clone_map_req(pt, src_pt, allocator, mem, va),
        h.clone_map_ens(pt, pt1, src_pt, allocator, allocator1, reg, reg1, mem, mem1, va, attr),
        mem2 == mem1@.insert(pt1@[va].pa, w),
    ensures
        mem2[src_pt@[va].pa] == mem1@[src_pt@[va].pa],
{
    lemma_by_frame_duplicate_snapshot(
        h, pt, pt1, src_pt, allocator, allocator1, reg, reg1, mem, mem1, va, attr,
    );
}

/// A successful swappable `map` makes exactly one registration, and it
/// carries the very frame that was allocated and installed at `va`,
/// together with the location of the installed entry.
pub proof fn lemma_swappable_map_registers(
    h: ByFrameWithRpa,
    pt: PageTable,
    pt1: PageTable,
    allocator: FrameAllocator,
    allocator1: FrameAllocator,
    reg: PageReplaceRegistry,
    reg1: PageReplaceRegistry,
    va: usize,
    attr: MemoryAttr,
)
    requires
        h.map_req(pt, allocator, va),
        h.map_ens(pt, pt1, allocator, allocator1, reg, reg1, va, attr),
    ensures
        reg1@.len() == reg@.len() + 1,
        reg1@ == reg@.push((pt1@[va].pa, va)),
        pt1@[va].pa == allocator@.last(),
{
}

} // verus!

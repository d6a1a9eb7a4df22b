//! Page-mapping strategies for a kernel's virtual-memory subsystem.
//!
//! A memory region is backed by one of three policies: a fixed
//! virtual-to-physical offset (`Linear`), a demand-allocated physical frame
//! per page (`ByFrame`), or a frame additionally registered with the
//! page-replacement subsystem (`ByFrameWithRpa`). Each policy implements the
//! `MemoryHandler` interface, which installs, removes, fills and duplicates
//! mappings in a page table.
//!
//! The collaborators the strategies drive — the page table, the physical
//! page contents, the frame allocator and the replacement registry — are
//! modelled here as explicit values, so that every operation's effect on
//! them can be stated and proved.

pub mod attr;
pub mod frame_alloc;
pub mod handler;
pub mod page;
pub mod page_replace;
pub mod page_table;
pub mod phys_memory;

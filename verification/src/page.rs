//! The page size and the shape of a freshly filled page.

use vstd::prelude::*;

verus! {

/// Number of bytes in one page, the unit in which physical frames are
/// handed out and mapped.
pub const PAGE_SIZE: usize = 4096;

/// The contents of a page after `length` bytes of `src` have been copied
/// into its start and the rest has been zero-filled.
pub open spec fn page_filled(src: Seq<u8>, length: int) -> Seq<u8> {
    Seq::new(PAGE_SIZE as nat, |i: int| if i < length { src[i] } else { 0u8 })
}

} // verus!

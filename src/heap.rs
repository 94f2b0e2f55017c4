//! Blocks of the heap that the host asks for.
use vstd::prelude::*;
use vstd::layout::{align_of, valid_layout};

use crate::fault::Fault;

verus! {

/// The size and alignment of a heap block. The heap keeps no record of its
/// blocks: a block is released with the layout that it was allocated with,
/// which the host's size alone determines.
#[derive(Clone, Copy, Debug, PartialEq, Eq, Structural)]
pub struct BlockLayout {
    pub size: usize,
    pub align: usize,
}

/// The alignment of every block: the platform's natural word alignment.
pub open spec fn word_align() -> usize {
    align_of::<usize>() as usize
}

/// The layout of a block of `size` bytes: `size` bytes at word alignment,
/// where that is a valid layout, and an allocation failure otherwise.
pub open spec fn layout_for(size: usize) -> Result<BlockLayout, Fault> {
    if valid_layout(size, word_align()) {
        Ok(BlockLayout { size, align: word_align() })
    } else {
        Err(Fault::AllocationFailed(size as u64))
    }
}

/// The layout of a block of `size` bytes at word alignment. A size that,
/// rounded up to the alignment, would pass `isize::MAX` can never be had
/// from the heap: its request is an allocation failure.
pub fn block_layout(size: usize) -> (r: Result<BlockLayout, Fault>)
    ensures
        r == layout_for(size),
{
    broadcast use vstd::layout::align_properties;

    vstd::layout::layout_for_type_is_valid::<usize>();
    let align = core::mem::align_of::<usize>();
    let limit = isize::MAX as usize;
    if size <= limit - limit % align {
        Ok(BlockLayout { size, align })
    } else {
        Err(Fault::AllocationFailed(size as u64))
    }
}

/// A block is released with the layout it was allocated with: the layout
/// that `block_layout` gives when a block of `size` bytes is allocated and
/// the one it gives when that block is released with the same `size` are
/// equal, and describe exactly `size` bytes, or both are the same
/// allocation failure.
pub proof fn lemma_release_matches_allocation(
    size: usize,
    at_alloc: Result<BlockLayout, Fault>,
    at_release: Result<BlockLayout, Fault>,
)
    requires
        at_alloc == layout_for(size),
        at_release == layout_for(size),
    ensures
        at_alloc == at_release,
        at_alloc matches Ok(l) ==> l.size == size && l.align == word_align(),
        at_alloc matches Err(f) ==> f == Fault::AllocationFailed(size as u64),
{
}

} // verus!

use vstd::prelude::*;
use vstd::std_specs::vec::vec_index_mut;

use crate::errors::AllocError;

verus! {

/// A model of a low-level, manually managed allocator. `alloc` hands out a
/// raw block holding one counter and returns a handle to it; the block stays
/// alive until the owner explicitly calls `free` on the handle. A guarded
/// cell may own such a handle as its value: the cell then owns the handle,
/// while the block itself remains the pool owner's responsibility, and
/// releasing the whole arrangement is an explicit two-step protocol — extract
/// the handle from the cell, free the block, then drop the cell. The
/// contracts make the double-free and use-after-free mistakes of that split
/// ownership unreachable: `read`, `write` and `free` all demand a live block.
pub struct Pool {
    blocks: Vec<Option<u32>>,
}

impl Pool {
    /// All blocks ever allocated from this pool, in allocation order; a freed
    /// block is `None`.
    pub closed spec fn blocks(self) -> Seq<Option<u32>> {
        self.blocks@
    }

    /// How many blocks were ever allocated, freed ones included.
    pub open spec fn block_count(self) -> nat {
        self.blocks().len()
    }

    /// Whether `h` names a block that was allocated and not yet freed.
    pub open spec fn is_live(self, h: usize) -> bool {
        h < self.blocks().len() && self.blocks()[h as int] is Some
    }

    /// The counter stored in the live block `h`.
    pub open spec fn value_at(self, h: usize) -> u32
        recommends
            self.is_live(h),
    {
        self.blocks()[h as int]->0
    }

    /// An empty pool: no block was ever allocated.
    pub fn new() -> (p: Pool)
        ensures
            p.block_count() == 0,
    {
        Pool { blocks: Vec::new() }
    }

    /// Allocate a fresh block holding `initial` and return its handle.
    /// Allocation reports failure to the caller when the host is out of
    /// memory; this host never is, so the result is always `Ok`.
    pub fn allocate(&mut self, initial: u32) -> (r: Result<usize, AllocError>)
        ensures
            r matches Ok(h) && h == old(self).block_count() && final(self).blocks() == old(
                self,
            ).blocks().push(Some(initial)),
    {
        let h = self.blocks.len();
        self.blocks.push(Some(initial));
        Ok(h)
    }

    /// Read the counter of the live block `h`.
    pub fn read(&self, h: usize) -> (v: u32)
        requires
            self.is_live(h),
        ensures
            v == self.value_at(h),
    {
        self.blocks[h].unwrap()
    }

    /// Overwrite the counter of the live block `h`.
    pub fn write(&mut self, h: usize, v: u32)
        requires
            old(self).is_live(h),
        ensures
            final(self).blocks() == old(self).blocks().update(h as int, Some(v)),
    {
        *vec_index_mut(&mut self.blocks, h) = Some(v);
    }

    /// Release the live block `h`. Freeing a block twice, like touching a
    /// freed block, is ruled out by the preconditions rather than detected at
    /// run time.
    pub fn free(&mut self, h: usize)
        requires
            old(self).is_live(h),
        ensures
            final(self).blocks() == old(self).blocks().update(h as int, None),
    {
        *vec_index_mut(&mut self.blocks, h) = None;
    }
}

} // verus!

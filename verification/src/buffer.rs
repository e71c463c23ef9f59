use vstd::prelude::*;

use crate::utils::HandleAllocator;

verus! {

/// A linear device buffer together with its backing memory allocation: the
/// buffer handle, the memory handle, and the byte size it was created with.
/// The driver owns the objects behind the two handles; the core tracks them
/// so it can sequence their destruction after the work that reads them.
pub struct AllocatedBuffer {
    pub handle: u64,
    pub memory: u64,
    pub size: u64,
}

impl AllocatedBuffer {
    /// Creates a buffer of `size` bytes and binds fresh backing memory to it.
    pub fn new(ids: &mut HandleAllocator, size: u64) -> (r: Self)
        requires
            old(ids).next < u64::MAX - 1,
        ensures
            r.handle == old(ids).next,
            r.memory == old(ids).next + 1,
            r.size == size,
            final(ids).next == old(ids).next + 2,
            old(ids).wf() ==> final(ids).wf(),
    {
        let handle = ids.fresh();
        let memory = ids.fresh();
        Self { handle, memory, size }
    }
}

} // verus!

use vstd::prelude::*;

verus! {

/// A queue family chosen during device initialization: the family's index in
/// the device's queue family table, and the index of the queue inside that
/// family. The initialization layer picks both; the core only carries them
/// into the swapchain's sharing-mode decision.
#[derive(Clone, Copy, Debug, PartialEq, Eq, Structural)]
pub struct QueueFamily {
    pub family_index: u32,
    pub queue_index: u32,
}

impl QueueFamily {
    pub fn new(family_index: u32, queue_index: u32) -> (r: Self)
        ensures
            r.family_index == family_index,
            r.queue_index == queue_index,
    {
        Self { family_index, queue_index }
    }
}

} // verus!

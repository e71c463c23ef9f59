use vstd::prelude::*;

verus! {

/// One entry of the platform's memory type table: the property flags the
/// driver reports for that memory type.
pub struct MemoryType {
    pub property_flags: u32,
}

/// Entry `i` of the table satisfies a request when its bit is set in the
/// type-filter bitmask and its property flags are a superset of the
/// requested flags.
pub open spec fn memory_type_suitable(
    memory_types: Seq<MemoryType>,
    type_filter: u32,
    properties: u32,
    i: int,
) -> bool {
    &&& 0 <= i < memory_types.len()
    &&& type_filter & (1u32 << (i as u32)) != 0u32
    &&& memory_types[i].property_flags & properties == properties
}

/// Scans the memory type table and returns the first index whose bit is set
/// in `type_filter` and whose property flags contain all of `properties`;
/// `None` when no entry qualifies — a configuration or driver error the demo
/// treats as fatal at the call site, since nothing at this layer can recover
/// from it. The table a driver reports has at most 32 entries, one per bit
/// of the filter.
pub fn find_memory_type(
    memory_types: &Vec<MemoryType>,
    type_filter: u32,
    properties: u32,
) -> (r: Option<u32>)
    requires
        memory_types@.len() <= 32,
    ensures
        match r {
            Some(i) => {
                &&& memory_type_suitable(memory_types@, type_filter, properties, i as int)
                &&& forall|j: int|
                    0 <= j < i ==> !memory_type_suitable(
                        memory_types@,
                        type_filter,
                        properties,
                        j,
                    )
            },
            None => forall|j: int|
                !memory_type_suitable(memory_types@, type_filter, properties, j),
        },
{
    let n = memory_types.len();
    for i in 0..n
        invariant
            n == memory_types@.len() <= 32,
            forall|j: int|
                0 <= j < i ==> !memory_type_suitable(memory_types@, type_filter, properties, j),
    {
        if (type_filter & (1u32 << (i as u32))) != 0u32
            && (memory_types[i].property_flags & properties) == properties {
            return Some(i as u32);
        }
    }
    None
}

/// Hands out the values that stand for driver-owned object handles. Each
/// value is distinct from every one handed out before; zero is never handed
/// out, so it can stand for a null handle.
pub struct HandleAllocator {
    pub next: u64,
}

impl HandleAllocator {
    pub open spec fn wf(self) -> bool {
        self.next >= 1
    }

    pub fn new() -> (r: HandleAllocator)
        ensures
            r.next == 1,
            r.wf(),
    {
        HandleAllocator { next: 1 }
    }

    pub fn fresh(&mut self) -> (r: u64)
        requires
            old(self).next < u64::MAX,
        ensures
            r == old(self).next,
            final(self).next == old(self).next + 1,
            old(self).wf() ==> final(self).wf() && r != 0,
    {
        let r = self.next;
        self.next = self.next + 1;
        r
    }
}

} // verus!

use vstd::prelude::*;

use crate::utils::HandleAllocator;

verus! {

/// Descriptor type value for a combined image sampler.
pub const DESCRIPTOR_TYPE_COMBINED_IMAGE_SAMPLER: u32 = 1;

/// Descriptor type value for a uniform buffer.
pub const DESCRIPTOR_TYPE_UNIFORM_BUFFER: u32 = 6;

/// Descriptor type value for a storage buffer.
pub const DESCRIPTOR_TYPE_STORAGE_BUFFER: u32 = 7;

/// Stage bit for the vertex shader.
pub const SHADER_STAGE_VERTEX: u32 = 1;

/// Stage bit for the fragment shader.
pub const SHADER_STAGE_FRAGMENT: u32 = 16;

/// Size of the bindless-style texture array the fragment stage samples.
pub const TEXTURE_ARRAY_SIZE: u32 = 16;

/// One entry of a descriptor set layout's binding table.
#[derive(Clone, Copy, Debug, PartialEq, Eq, Structural)]
pub struct LayoutBinding {
    pub binding: u32,
    pub descriptor_type: u32,
    pub descriptor_count: u32,
    pub stage_flags: u32,
}

/// The binding table every descriptor set of the demo follows: the camera
/// uniform buffer at binding 0 and the per-object storage buffer at binding
/// 1, both vertex-stage visible, and the fixed-size array of combined image
/// samplers at binding 2 for the fragment stage.
pub open spec fn spec_layout_bindings() -> Seq<LayoutBinding> {
    seq![
        LayoutBinding {
            binding: 0,
            descriptor_type: DESCRIPTOR_TYPE_UNIFORM_BUFFER,
            descriptor_count: 1,
            stage_flags: SHADER_STAGE_VERTEX,
        },
        LayoutBinding {
            binding: 1,
            descriptor_type: DESCRIPTOR_TYPE_STORAGE_BUFFER,
            descriptor_count: 1,
            stage_flags: SHADER_STAGE_VERTEX,
        },
        LayoutBinding {
            binding: 2,
            descriptor_type: DESCRIPTOR_TYPE_COMBINED_IMAGE_SAMPLER,
            descriptor_count: TEXTURE_ARRAY_SIZE,
            stage_flags: SHADER_STAGE_FRAGMENT,
        },
    ]
}

/// The shader-visible binding layout: its handle and the binding table it
/// was created with.
pub struct DescriptorSetLayout {
    pub handle: u64,
    pub bindings: Vec<LayoutBinding>,
}

impl DescriptorSetLayout {
    /// Declares the demo's fixed binding layout.
    pub fn new(ids: &mut HandleAllocator) -> (r: Self)
        requires
            old(ids).next < u64::MAX,
        ensures
            r.handle == old(ids).next,
            r.bindings@ == spec_layout_bindings(),
            final(ids).next == old(ids).next + 1,
            old(ids).wf() ==> final(ids).wf(),
    {
        let handle = ids.fresh();
        let mut bindings: Vec<LayoutBinding> = Vec::new();
        bindings.push(LayoutBinding {
            binding: 0,
            descriptor_type: DESCRIPTOR_TYPE_UNIFORM_BUFFER,
            descriptor_count: 1,
            stage_flags: SHADER_STAGE_VERTEX,
        });
        bindings.push(LayoutBinding {
            binding: 1,
            descriptor_type: DESCRIPTOR_TYPE_STORAGE_BUFFER,
            descriptor_count: 1,
            stage_flags: SHADER_STAGE_VERTEX,
        });
        bindings.push(LayoutBinding {
            binding: 2,
            descriptor_type: DESCRIPTOR_TYPE_COMBINED_IMAGE_SAMPLER,
            descriptor_count: TEXTURE_ARRAY_SIZE,
            stage_flags: SHADER_STAGE_FRAGMENT,
        });
        proof {
            assert(bindings@ =~= spec_layout_bindings());
        }
        Self { handle, bindings }
    }
}

/// How many descriptors of one type a pool sets aside.
#[derive(Clone, Copy, Debug, PartialEq, Eq, Structural)]
pub struct PoolSize {
    pub descriptor_type: u32,
    pub descriptor_count: u32,
}

/// A descriptor pool: its handle, the set and descriptor budgets it was
/// created with, and how many sets have been allocated from it so far.
pub struct DescriptorPool {
    pub handle: u64,
    pub max_sets: u32,
    pub pool_sizes: Vec<PoolSize>,
    pub allocated_sets: u32,
}

impl DescriptorPool {
    pub fn new(ids: &mut HandleAllocator, max_sets: u32, pool_sizes: Vec<PoolSize>) -> (r: Self)
        requires
            old(ids).next < u64::MAX,
        ensures
            r.handle == old(ids).next,
            r.max_sets == max_sets,
            r.pool_sizes == pool_sizes,
            r.allocated_sets == 0,
            final(ids).next == old(ids).next + 1,
            old(ids).wf() ==> final(ids).wf(),
    {
        let handle = ids.fresh();
        Self { handle, max_sets, pool_sizes, allocated_sets: 0 }
    }

    /// Allocates one descriptor set. The driver refuses more sets than the
    /// pool was created for, so callers stay under the budget.
    pub fn allocate_set(&mut self, ids: &mut HandleAllocator) -> (r: u64)
        requires
            old(self).allocated_sets < old(self).max_sets,
            old(ids).next < u64::MAX,
        ensures
            r == old(ids).next,
            final(self).allocated_sets == old(self).allocated_sets + 1,
            final(self).handle == old(self).handle,
            final(self).max_sets == old(self).max_sets,
            final(self).pool_sizes == old(self).pool_sizes,
            final(ids).next == old(ids).next + 1,
            old(ids).wf() ==> final(ids).wf() && r != 0,
    {
        self.allocated_sets = self.allocated_sets + 1;
        ids.fresh()
    }
}

/// One buffer write into a descriptor set: which binding of which set is
/// pointed at which buffer region.
#[derive(Clone, Copy, Debug, PartialEq, Eq, Structural)]
pub struct DescriptorWrite {
    pub dst_set: u64,
    pub dst_binding: u32,
    pub descriptor_type: u32,
    pub buffer: u64,
    pub offset: u64,
    pub range: u64,
}

/// One combined image-sampler write into the texture array binding.
#[derive(Clone, Copy, Debug, PartialEq, Eq, Structural)]
pub struct ImageDescriptorWrite {
    pub dst_set: u64,
    pub dst_binding: u32,
    pub array_element: u32,
    pub image_view: u64,
    pub sampler: u64,
}

} // verus!

use vstd::prelude::*;

use crate::buffer::AllocatedBuffer;
use crate::descriptors::DescriptorPool;
use crate::descriptors::DescriptorWrite;
use crate::descriptors::ImageDescriptorWrite;
use crate::descriptors::DESCRIPTOR_TYPE_STORAGE_BUFFER;
use crate::descriptors::DESCRIPTOR_TYPE_UNIFORM_BUFFER;
use crate::descriptors::TEXTURE_ARRAY_SIZE;
use crate::utils::HandleAllocator;

verus! {

/// Largest number of objects one frame's storage buffer can carry.
pub const MAX_OBJECT: usize = 10_000;

/// Bytes of the per-frame camera uniform record.
pub const CAMERA_DATA_SIZE: u64 = 32;

/// Bytes of one per-object record in the per-frame storage buffer.
pub const OBJECT_DATA_SIZE: u64 = 32;

/// A driver fence: signaled once the batch of work it was attached to has
/// completed. Both per-slot fences are created signaled, so the very first
/// wait on a slot is a no-op.
pub struct Fence {
    pub id: u64,
    pub signaled: bool,
}

/// The resources of one frame in flight: a command pool with one primary
/// command buffer, the two semaphores ordering acquire, render and present,
/// the two fences the CPU waits on before reusing the slot, the two
/// persistently mapped per-frame buffers, the descriptor set pointing at
/// them, and the deferred-deletion queues for swapchain resources retired
/// while this slot was current.
pub struct FrameData {
    pub command_pool: u64,
    pub command_buffer: u64,
    pub image_available_semaphore: u64,
    pub render_finished_semaphore: u64,
    pub in_flight_fence: Fence,
    pub present_fence: Fence,
    pub global_buffer: AllocatedBuffer,
    pub object_buffer: AllocatedBuffer,
    pub descriptor_set: u64,
    pub delete_queue_framebuffers: Vec<u64>,
    pub delete_queue_image_views: Vec<u64>,
}

impl FrameData {
    /// The slot's previous use is fully retired: both its fences are
    /// signaled, so its command buffer, uniform memory and queued retired
    /// resources are safe to touch.
    pub open spec fn idle(self) -> bool {
        &&& self.in_flight_fence.signaled
        &&& self.present_fence.signaled
    }

    /// The slot still owns the same driver objects as `other`: everything
    /// but the fence signal states and the deletion queue contents.
    pub open spec fn same_resources(self, other: FrameData) -> bool {
        &&& self.command_pool == other.command_pool
        &&& self.command_buffer == other.command_buffer
        &&& self.image_available_semaphore == other.image_available_semaphore
        &&& self.render_finished_semaphore == other.render_finished_semaphore
        &&& self.in_flight_fence.id == other.in_flight_fence.id
        &&& self.present_fence.id == other.present_fence.id
        &&& self.global_buffer == other.global_buffer
        &&& self.object_buffer == other.object_buffer
        &&& self.descriptor_set == other.descriptor_set
    }

    /// The slot's eleven handles are the eleven the allocator handed out
    /// from `base` on, in creation order: pool, command buffer, the two
    /// buffers with their memory, the descriptor set, the two semaphores,
    /// and the two fences. Slots created back to back therefore own
    /// pairwise distinct resources.
    pub open spec fn handles_pinned(self, base: int) -> bool {
        &&& self.command_pool == base
        &&& self.command_buffer == base + 1
        &&& self.global_buffer.handle == base + 2
        &&& self.global_buffer.memory == base + 3
        &&& self.object_buffer.handle == base + 4
        &&& self.object_buffer.memory == base + 5
        &&& self.descriptor_set == base + 6
        &&& self.image_available_semaphore == base + 7
        &&& self.render_finished_semaphore == base + 8
        &&& self.in_flight_fence.id == base + 9
        &&& self.present_fence.id == base + 10
    }

    /// Creates the slot's pool, command buffer, mapped buffers, descriptor
    /// set (allocated from the shared pool) and synchronization primitives,
    /// in that order. Both fences start signaled and both deletion queues
    /// start empty.
    pub fn new(ids: &mut HandleAllocator, descriptor_pool: &mut DescriptorPool) -> (r: Self)
        requires
            old(ids).next < u64::MAX - 11,
            old(descriptor_pool).allocated_sets < old(descriptor_pool).max_sets,
        ensures
            r.idle(),
            r.handles_pinned(old(ids).next as int),
            r.delete_queue_framebuffers@.len() == 0,
            r.delete_queue_image_views@.len() == 0,
            r.global_buffer.size == CAMERA_DATA_SIZE,
            r.object_buffer.size == MAX_OBJECT * OBJECT_DATA_SIZE,
            final(ids).next == old(ids).next + 11,
            old(ids).wf() ==> final(ids).wf(),
            final(descriptor_pool).allocated_sets == old(descriptor_pool).allocated_sets + 1,
            final(descriptor_pool).handle == old(descriptor_pool).handle,
            final(descriptor_pool).max_sets == old(descriptor_pool).max_sets,
            final(descriptor_pool).pool_sizes == old(descriptor_pool).pool_sizes,
    {
        let command_pool = ids.fresh();
        let command_buffer = ids.fresh();
        let global_buffer = AllocatedBuffer::new(ids, CAMERA_DATA_SIZE);
        let object_buffer = AllocatedBuffer::new(ids, (MAX_OBJECT as u64) * OBJECT_DATA_SIZE);
        let descriptor_set = descriptor_pool.allocate_set(ids);
        let image_available_semaphore = ids.fresh();
        let render_finished_semaphore = ids.fresh();
        let in_flight_fence = Fence { id: ids.fresh(), signaled: true };
        let present_fence = Fence { id: ids.fresh(), signaled: true };
        Self {
            command_pool,
            command_buffer,
            image_available_semaphore,
            render_finished_semaphore,
            in_flight_fence,
            present_fence,
            global_buffer,
            object_buffer,
            descriptor_set,
            delete_queue_framebuffers: Vec::new(),
            delete_queue_image_views: Vec::new(),
        }
    }

    /// The writes that wire the slot's descriptor set per the layout's
    /// binding table: the camera uniform buffer at binding 0 over its full
    /// range, the object storage buffer at binding 1 over its full range,
    /// and one combined image sampler per texture view at binding 2, capped
    /// at the array size.
    pub fn descriptor_writes(&self, image_views: &Vec<u64>, sampler: u64) -> (r: (
        Vec<DescriptorWrite>,
        Vec<ImageDescriptorWrite>,
    ))
        ensures
            r.0@.len() == 2,
            r.0@[0] == (DescriptorWrite {
                dst_set: self.descriptor_set,
                dst_binding: 0,
                descriptor_type: DESCRIPTOR_TYPE_UNIFORM_BUFFER,
                buffer: self.global_buffer.handle,
                offset: 0,
                range: CAMERA_DATA_SIZE,
            }),
            r.0@[1] == (DescriptorWrite {
                dst_set: self.descriptor_set,
                dst_binding: 1,
                descriptor_type: DESCRIPTOR_TYPE_STORAGE_BUFFER,
                buffer: self.object_buffer.handle,
                offset: 0,
                range: (MAX_OBJECT * OBJECT_DATA_SIZE) as u64,
            }),
            r.1@.len() == (if image_views@.len() > TEXTURE_ARRAY_SIZE {
                TEXTURE_ARRAY_SIZE as int
            } else {
                image_views@.len() as int
            }),
            forall|t: int| 0 <= t < r.1@.len() ==> r.1@[t] == (ImageDescriptorWrite {
                dst_set: self.descriptor_set,
                dst_binding: 2,
                array_element: t as u32,
                image_view: image_views@[t],
                sampler,
            }),
    {
        let mut buffer_writes: Vec<DescriptorWrite> = Vec::new();
        buffer_writes.push(DescriptorWrite {
            dst_set: self.descriptor_set,
            dst_binding: 0,
            descriptor_type: DESCRIPTOR_TYPE_UNIFORM_BUFFER,
            buffer: self.global_buffer.handle,
            offset: 0,
            range: CAMERA_DATA_SIZE,
        });
        buffer_writes.push(DescriptorWrite {
            dst_set: self.descriptor_set,
            dst_binding: 1,
            descriptor_type: DESCRIPTOR_TYPE_STORAGE_BUFFER,
            buffer: self.object_buffer.handle,
            offset: 0,
            range: (MAX_OBJECT as u64) * OBJECT_DATA_SIZE,
        });

        let count = if image_views.len() > TEXTURE_ARRAY_SIZE as usize {
            TEXTURE_ARRAY_SIZE as usize
        } else {
            image_views.len()
        };
        let mut image_writes: Vec<ImageDescriptorWrite> = Vec::new();
        let mut t: usize = 0;
        while t < count
            invariant
                t <= count,
                count <= image_views@.len(),
                count <= TEXTURE_ARRAY_SIZE,
                image_writes@.len() == t,
                forall|u: int| 0 <= u < t ==> image_writes@[u] == (ImageDescriptorWrite {
                    dst_set: self.descriptor_set,
                    dst_binding: 2,
                    array_element: u as u32,
                    image_view: image_views@[u],
                    sampler,
                }),
            decreases count - t,
        {
            image_writes.push(ImageDescriptorWrite {
                dst_set: self.descriptor_set,
                dst_binding: 2,
                array_element: t as u32,
                image_view: image_views[t],
                sampler,
            });
            t = t + 1;
        }
        (buffer_writes, image_writes)
    }
}

} // verus!

use vstd::prelude::*;

use crate::buffer::AllocatedBuffer;
use crate::descriptors::DescriptorPool;
use crate::descriptors::DescriptorSetLayout;
use crate::descriptors::PoolSize;
use crate::descriptors::DESCRIPTOR_TYPE_COMBINED_IMAGE_SAMPLER;
use crate::descriptors::DESCRIPTOR_TYPE_STORAGE_BUFFER;
use crate::descriptors::DESCRIPTOR_TYPE_UNIFORM_BUFFER;
use crate::descriptors::TEXTURE_ARRAY_SIZE;
use crate::descriptors::spec_layout_bindings;
use crate::frame::FrameData;
use crate::frame::MAX_OBJECT;
use crate::image::Image;
use crate::image::ImageData;
use crate::instance::QueueFamily;
use crate::mesh::Mesh;
use crate::swapchain::SurfaceInfo;
use crate::swapchain::Swapchain;
use crate::swapchain::spec_choose_present_mode;
use crate::swapchain::spec_choose_surface_format;
use crate::swapchain::spec_image_count;
use crate::swapchain::spec_resolve_extent;
use crate::swapchain::spec_sharing_mode;
use crate::utils::HandleAllocator;

verus! {

/// Number of frame slots: how far the CPU may run ahead of the GPU.
pub const MAX_FRAMES_IN_FLIGHT: usize = 3;

/// Byte capacity of each of the two global geometry arena buffers.
pub const GLOBAL_BUFFER_SIZE: u64 = 64 * 1024 * 1024;

/// Bytes of one vertex in the global vertex buffer: three position floats
/// and two texture coordinates.
pub const VERTEX_STRIDE: u64 = 20;

/// Bytes of one index in the global index buffer.
pub const INDEX_STRIDE: u64 = 4;

/// Image layout value for a freshly created, never-written image.
pub const IMAGE_LAYOUT_UNDEFINED: u32 = 0;

/// Image layout value for an image a shader samples from.
pub const IMAGE_LAYOUT_SHADER_READ_ONLY_OPTIMAL: u32 = 5;

/// Image layout value for an image a transfer writes into.
pub const IMAGE_LAYOUT_TRANSFER_DST_OPTIMAL: u32 = 7;

/// Image layout value for a color attachment being rendered to.
pub const IMAGE_LAYOUT_COLOR_ATTACHMENT_OPTIMAL: u32 = 2;

/// Image layout value for an image handed to the presentation engine.
pub const IMAGE_LAYOUT_PRESENT_SRC: u32 = 1000001002;

/// Sample count value for single-sampled attachments.
pub const SAMPLE_COUNT_1: u32 = 1;

/// Attachment load operation: clear at render pass start.
pub const ATTACHMENT_LOAD_OP_CLEAR: u32 = 1;

/// Attachment load operation: contents do not matter.
pub const ATTACHMENT_LOAD_OP_DONT_CARE: u32 = 2;

/// Attachment store operation: keep the result for presentation.
pub const ATTACHMENT_STORE_OP_STORE: u32 = 0;

/// Attachment store operation: the result may be discarded.
pub const ATTACHMENT_STORE_OP_DONT_CARE: u32 = 1;

/// What acquiring the next presentable image reported: the image's index in
/// the chain, possibly with a staleness warning, or that the surface
/// changed and the chain must be recreated before anything can be drawn.
#[derive(Clone, Copy, Debug, PartialEq, Eq, Structural)]
pub enum AcquireOutcome {
    Success(u32),
    Suboptimal(u32),
    OutOfDate,
}

/// What presenting the rendered image reported. A suboptimal or out-of-date
/// present triggers swapchain recreation; unlike at acquire time, the frame
/// was already rendered and handed over.
#[derive(Clone, Copy, Debug, PartialEq, Eq, Structural)]
pub enum PresentOutcome {
    Success,
    Suboptimal,
    OutOfDate,
}

/// One recorded indexed draw: the object index pushed as a push constant
/// and the arena region the indices are drawn from.
#[derive(Clone, Copy, Debug, PartialEq, Eq, Structural)]
pub struct DrawCmd {
    pub object_index: u32,
    pub mesh: Mesh,
}

/// What one draw step decided, for the device layer to carry out and for
/// tests to observe: the slot it ran on, the retired resources whose turn
/// came to be destroyed, how many object records were written into the
/// slot's storage buffer, the draws recorded, and whether the frame was
/// presented or skipped for a swapchain recreation.
pub struct DrawReport {
    pub slot: usize,
    pub freed_framebuffers: Vec<u64>,
    pub freed_image_views: Vec<u64>,
    pub objects_written: usize,
    pub draws: Vec<DrawCmd>,
    pub image_index: u32,
    pub presented: bool,
    pub resized: bool,
}

/// One buffer-to-buffer copy the staging submission records.
#[derive(Clone, Copy, Debug, PartialEq, Eq, Structural)]
pub struct CopyRegion {
    pub src_offset: u64,
    pub dst_offset: u64,
    pub size: u64,
}

/// What one mesh upload does besides claiming its arena region: the size of
/// the transient host-visible staging buffer (vertex bytes then index bytes,
/// contiguously), and the two copies the single immediate submission
/// records, from the staging buffer into the two arena buffers at the old
/// cursors. The staging buffer is destroyed once the submission completed.
#[derive(Clone, Copy, Debug, PartialEq, Eq, Structural)]
pub struct MeshUpload {
    pub mesh: Mesh,
    pub staging_size: u64,
    pub vertex_copy: CopyRegion,
    pub index_copy: CopyRegion,
}

/// One texture's part of the startup upload: the image it targets, where
/// its bytes sit in the packed staging buffer, its extent, and the layout
/// transitions around the copy — from undefined to transfer destination
/// before it, to shader-read-only after it.
#[derive(Clone, Copy, Debug, PartialEq, Eq, Structural)]
pub struct ImageUploadCmd {
    pub image: u64,
    pub staging_offset: u64,
    pub width: u32,
    pub height: u32,
    pub initial_layout: u32,
    pub transfer_layout: u32,
    pub final_layout: u32,
}

/// The startup texture upload: one staging buffer holding every texture's
/// bytes packed in input order, and the per-image transition-copy-transition
/// commands of the single immediate submission that consumes it.
pub struct TextureUploadPlan {
    pub staging_size: u64,
    pub uploads: Vec<ImageUploadCmd>,
}

/// Where the bytes of the first `i` textures end in the packed staging
/// buffer: the sum of their data sizes.
pub open spec fn packed_offset(images: Seq<ImageData>, i: int) -> int
    decreases i,
{
    if i <= 0 {
        0
    } else {
        packed_offset(images, i - 1) + images[i - 1].width * images[i - 1].height * images[
            i - 1
        ].bytes_per_pixel
    }
}

/// Packed offsets only grow with the image index.
proof fn lemma_packed_offset_monotonic(images: Seq<ImageData>, i: int, j: int)
    requires
        0 <= i <= j,
    ensures
        packed_offset(images, i) <= packed_offset(images, j),
    decreases j,
{
    if i < j {
        lemma_packed_offset_monotonic(images, i, j - 1);
        assert(images[j - 1].width * images[j - 1].height * images[j - 1].bytes_per_pixel >= 0)
            by (nonlinear_arith)
            requires
                images[j - 1].width >= 0,
                images[j - 1].height >= 0,
                images[j - 1].bytes_per_pixel >= 0,
            ;
    }
}

/// The fixed single-attachment render pass configuration the demo draws
/// with: cleared at load, stored for presentation, single-sampled, stencil
/// ignored, entered undefined and left ready for the presentation engine,
/// with the one subpass rendering to it in color-attachment layout.
#[derive(Clone, Copy, Debug, PartialEq, Eq, Structural)]
pub struct RenderPassConfig {
    pub format: u32,
    pub samples: u32,
    pub load_op: u32,
    pub store_op: u32,
    pub stencil_load_op: u32,
    pub stencil_store_op: u32,
    pub initial_layout: u32,
    pub final_layout: u32,
    pub subpass_color_layout: u32,
}

/// The configuration the renderer's pass is created with, for the given
/// swapchain color format.
pub fn render_pass_config(format: u32) -> (r: RenderPassConfig)
    ensures
        r == (RenderPassConfig {
            format,
            samples: SAMPLE_COUNT_1,
            load_op: ATTACHMENT_LOAD_OP_CLEAR,
            store_op: ATTACHMENT_STORE_OP_STORE,
            stencil_load_op: ATTACHMENT_LOAD_OP_DONT_CARE,
            stencil_store_op: ATTACHMENT_STORE_OP_DONT_CARE,
            initial_layout: IMAGE_LAYOUT_UNDEFINED,
            final_layout: IMAGE_LAYOUT_PRESENT_SRC,
            subpass_color_layout: IMAGE_LAYOUT_COLOR_ATTACHMENT_OPTIMAL,
        }),
{
    RenderPassConfig {
        format,
        samples: SAMPLE_COUNT_1,
        load_op: ATTACHMENT_LOAD_OP_CLEAR,
        store_op: ATTACHMENT_STORE_OP_STORE,
        stencil_load_op: ATTACHMENT_LOAD_OP_DONT_CARE,
        stencil_store_op: ATTACHMENT_STORE_OP_DONT_CARE,
        initial_layout: IMAGE_LAYOUT_UNDEFINED,
        final_layout: IMAGE_LAYOUT_PRESENT_SRC,
        subpass_color_layout: IMAGE_LAYOUT_COLOR_ATTACHMENT_OPTIMAL,
    }
}

/// The descriptor budgets the renderer's pool is created with: one uniform
/// buffer and one storage buffer per frame slot, and one texture array's
/// worth of combined image samplers per slot.
pub open spec fn spec_renderer_pool_sizes() -> Seq<PoolSize> {
    seq![
        PoolSize {
            descriptor_type: DESCRIPTOR_TYPE_UNIFORM_BUFFER,
            descriptor_count: MAX_FRAMES_IN_FLIGHT as u32,
        },
        PoolSize {
            descriptor_type: DESCRIPTOR_TYPE_STORAGE_BUFFER,
            descriptor_count: MAX_FRAMES_IN_FLIGHT as u32,
        },
        PoolSize {
            descriptor_type: DESCRIPTOR_TYPE_COMBINED_IMAGE_SAMPLER,
            descriptor_count: (MAX_FRAMES_IN_FLIGHT * 16) as u32,
        },
    ]
}

/// Every value of the sequence lies below `bound`.
pub open spec fn all_below(s: Seq<u64>, bound: int) -> bool {
    forall|i: int| 0 <= i < s.len() ==> s[i] < bound
}

proof fn lemma_all_below_le(s: Seq<u64>, b1: int, b2: int)
    requires
        all_below(s, b1),
        b1 <= b2,
    ensures
        all_below(s, b2),
{
    assert forall|i: int| 0 <= i < s.len() implies s[i] < b2 by {
        assert(s[i] < b1);
    }
}

proof fn lemma_all_below_concat(a: Seq<u64>, b: Seq<u64>, bound: int)
    requires
        all_below(a, bound),
        all_below(b, bound),
    ensures
        all_below(a + b, bound),
{
    assert forall|i: int| 0 <= i < (a + b).len() implies (a + b)[i] < bound by {
        if i < a.len() {
            assert((a + b)[i] == a[i]);
        } else {
            assert((a + b)[i] == b[i - a.len()]);
        }
    }
}

/// The slot the draw step after slot `i` runs on.
pub open spec fn advance_slot(i: int) -> int {
    (i + 1) % (MAX_FRAMES_IN_FLIGHT as int)
}

/// The slot in use after `k` further draw steps, starting at `start`.
pub open spec fn slot_after_draws(start: int, k: nat) -> int
    decreases k,
{
    if k == 0 {
        start
    } else {
        advance_slot(slot_after_draws(start, (k - 1) as nat))
    }
}

/// Frame slot round-robin law: starting from the first slot, the draw steps
/// visit the slots cyclically, so after `k` steps the slot in use is `k`
/// modulo the slot count.
pub proof fn lemma_slot_round_robin(k: nat)
    ensures
        slot_after_draws(0, k) == (k as int) % (MAX_FRAMES_IN_FLIGHT as int),
    decreases k,
{
    if k > 0 {
        lemma_slot_round_robin((k - 1) as nat);
    }
}

/// Deferred deletion spacing law: resources retired into slot `i`'s
/// deletion queue while slot `i` is current are not reached by any of the
/// next `MAX_FRAMES_IN_FLIGHT - 1` draw steps, which run on the other
/// slots; the step after those is the first to run on slot `i` again, and
/// a draw step drains only the queues of the slot it runs on.
pub proof fn lemma_deferred_deletion_spacing(i: int, k: nat)
    requires
        0 <= i < MAX_FRAMES_IN_FLIGHT,
    ensures
        k < MAX_FRAMES_IN_FLIGHT - 1 ==> slot_after_draws(advance_slot(i), k) != i,
        k == MAX_FRAMES_IN_FLIGHT - 1 ==> slot_after_draws(advance_slot(i), k) == i,
{
    if k == 0 {
    } else if k == 1 {
        assert(slot_after_draws(advance_slot(i), 1)
            == advance_slot(slot_after_draws(advance_slot(i), 0)));
    } else if k == 2 {
        assert(slot_after_draws(advance_slot(i), 1)
            == advance_slot(slot_after_draws(advance_slot(i), 0)));
        assert(slot_after_draws(advance_slot(i), 2)
            == advance_slot(slot_after_draws(advance_slot(i), 1)));
    }
}

/// Starting one slot later shifts every slot of the run by one step.
proof fn lemma_slot_shift(start: int, j: nat)
    ensures
        slot_after_draws(advance_slot(start), j) == advance_slot(slot_after_draws(start, j)),
    decreases j,
{
    if j > 0 {
        lemma_slot_shift(start, (j - 1) as nat);
    }
}

/// One draw step's effect on the deletion queues: the queue of the slot the
/// step runs on is drained and then holds whatever a resize during that
/// step retired; every other slot's queue is untouched.
pub open spec fn step_queues(queues: Seq<Seq<u64>>, slot: int, retired: Seq<u64>) -> Seq<
    Seq<u64>,
> {
    queues.update(slot, retired)
}

/// The deletion queues after a run of consecutive draw steps starting on
/// slot `start`, where the step `j` steps in retires `pushes[j]` into the
/// slot it runs on.
pub open spec fn run_queues(
    queues: Seq<Seq<u64>>,
    start: int,
    pushes: Seq<Seq<u64>>,
) -> Seq<Seq<u64>>
    decreases pushes.len(),
{
    if pushes.len() == 0 {
        queues
    } else {
        run_queues(
            step_queues(queues, start, pushes[0]),
            advance_slot(start),
            pushes.subrange(1, pushes.len() as int),
        )
    }
}

/// A run of draw steps none of which lands on slot `i` leaves slot `i`'s
/// deletion queue exactly as it was.
pub proof fn lemma_run_avoids_slot(
    queues: Seq<Seq<u64>>,
    start: int,
    i: int,
    pushes: Seq<Seq<u64>>,
)
    requires
        queues.len() == MAX_FRAMES_IN_FLIGHT,
        0 <= start < MAX_FRAMES_IN_FLIGHT,
        0 <= i < MAX_FRAMES_IN_FLIGHT,
        forall|j: nat| j < pushes.len() ==> #[trigger] slot_after_draws(start, j) != i,
    ensures
        run_queues(queues, start, pushes)[i] == queues[i],
    decreases pushes.len(),
{
    if pushes.len() > 0 {
        assert(slot_after_draws(start, 0) == start);
        let stepped = step_queues(queues, start, pushes[0]);
        let rest = pushes.subrange(1, pushes.len() as int);
        assert forall|j: nat| j < rest.len()
            implies #[trigger] slot_after_draws(advance_slot(start), j) != i by {
            lemma_slot_shift(start, j);
            assert(slot_after_draws(start, j + 1)
                == advance_slot(slot_after_draws(start, j)));
        }
        lemma_run_avoids_slot(stepped, advance_slot(start), i, rest);
    }
}

/// Deferred deletion invariant, over whole runs: whatever a resize queued
/// on slot `i`'s deletion queue while slot `i` was current is still there,
/// freed by no step, after any run of up to `MAX_FRAMES_IN_FLIGHT - 1`
/// further draw steps — those run on the other slots. The step after that
/// run is the first to land on slot `i` again, and it drains exactly slot
/// `i`'s queue, so the retired resources are freed then and never sooner.
pub proof fn lemma_deferred_deletion_run(
    queues: Seq<Seq<u64>>,
    i: int,
    pushes: Seq<Seq<u64>>,
)
    requires
        0 <= i < MAX_FRAMES_IN_FLIGHT,
        queues.len() == MAX_FRAMES_IN_FLIGHT,
        pushes.len() <= MAX_FRAMES_IN_FLIGHT - 1,
    ensures
        run_queues(queues, advance_slot(i), pushes)[i] == queues[i],
{
    assert forall|j: nat| j < pushes.len()
        implies #[trigger] slot_after_draws(advance_slot(i), j) != i by {
        lemma_deferred_deletion_spacing(i, j);
    }
    lemma_run_avoids_slot(queues, advance_slot(i), i, pushes);
}

/// Whether an upload of `vertex_count` vertices and `index_count` indices
/// fits the space the arena still has at cursors `voff` and `ioff`.
pub open spec fn upload_fits(voff: int, ioff: int, vertex_count: int, index_count: int) -> bool {
    &&& voff + vertex_count * VERTEX_STRIDE <= GLOBAL_BUFFER_SIZE
    &&& ioff + index_count * INDEX_STRIDE <= GLOBAL_BUFFER_SIZE
}

/// The arena cursors after a sequence of upload requests, each a pair of
/// vertex and index counts: a request that fits advances both cursors by
/// its byte sizes, a request that does not leaves them untouched.
pub open spec fn arena_after(voff: int, ioff: int, requests: Seq<(int, int)>) -> (int, int)
    decreases requests.len(),
{
    if requests.len() == 0 {
        (voff, ioff)
    } else {
        let vc = requests[0].0;
        let ic = requests[0].1;
        let rest = requests.subrange(1, requests.len() as int);
        if upload_fits(voff, ioff, vc, ic) {
            arena_after(voff + vc * VERTEX_STRIDE, ioff + ic * INDEX_STRIDE, rest)
        } else {
            arena_after(voff, ioff, rest)
        }
    }
}

/// Arena allocation law: over any sequence of upload requests the cursors
/// only grow, so successive meshes get non-decreasing, non-overlapping
/// regions, and cursors that start within capacity stay within capacity,
/// because a request that would cross it is rejected without moving them.
pub proof fn lemma_arena_monotonic_bounded(voff: int, ioff: int, requests: Seq<(int, int)>)
    requires
        0 <= voff <= GLOBAL_BUFFER_SIZE,
        0 <= ioff <= GLOBAL_BUFFER_SIZE,
        forall|k: int| 0 <= k < requests.len()
            ==> (#[trigger] requests[k]).0 >= 0 && requests[k].1 >= 0,
    ensures
        arena_after(voff, ioff, requests).0 >= voff,
        arena_after(voff, ioff, requests).1 >= ioff,
        arena_after(voff, ioff, requests).0 <= GLOBAL_BUFFER_SIZE,
        arena_after(voff, ioff, requests).1 <= GLOBAL_BUFFER_SIZE,
    decreases requests.len(),
{
    if requests.len() > 0 {
        let vc = requests[0].0;
        let ic = requests[0].1;
        let rest = requests.subrange(1, requests.len() as int);
        assert(forall|k: int| 0 <= k < rest.len()
            ==> (#[trigger] rest[k]).0 >= 0 && rest[k].1 >= 0);
        assert(vc * VERTEX_STRIDE >= 0) by (nonlinear_arith)
            requires vc >= 0;
        assert(ic * INDEX_STRIDE >= 0) by (nonlinear_arith)
            requires ic >= 0;
        if upload_fits(voff, ioff, vc, ic) {
            lemma_arena_monotonic_bounded(
                voff + vc * VERTEX_STRIDE,
                ioff + ic * INDEX_STRIDE,
                rest,
            );
        } else {
            lemma_arena_monotonic_bounded(voff, ioff, rest);
        }
    }
}

/// The orchestrator: owns the swapchain and its framebuffers, the render
/// pass, the pool of frame slots with the round-robin cursor, the global
/// geometry arena and its bump cursors, the uploaded textures, the queue
/// families it presents with, and the source of fresh handles standing for
/// driver objects.
pub struct Renderer {
    pub swapchain: Swapchain,
    pub render_pass: u64,
    pub frames: Vec<FrameData>,
    pub current_frame_index: usize,
    pub vertex_buffer: AllocatedBuffer,
    pub vertex_buffer_offset: u64,
    pub index_buffer: AllocatedBuffer,
    pub index_buffer_offset: u64,
    pub upload_command_pool: u64,
    pub descriptor_set_layout: DescriptorSetLayout,
    pub descriptor_pool: DescriptorPool,
    pub images: Vec<Image>,
    pub graphics_queue_family: QueueFamily,
    pub present_queue_family: QueueFamily,
    pub ids: HandleAllocator,
}

impl Renderer {
    /// The renderer's structural invariant: the fixed slot count with the
    /// cursor inside it, a consistent swapchain whose framebuffers are
    /// built, arena cursors inside capacity and aligned to their element
    /// strides, and every live or retired resource handle older than the
    /// allocator's next one, so newly created resources never collide with
    /// them.
    pub open spec fn wf(self) -> bool {
        &&& self.frames@.len() == MAX_FRAMES_IN_FLIGHT
        &&& self.current_frame_index < MAX_FRAMES_IN_FLIGHT
        &&& self.swapchain.wf()
        &&& self.swapchain.framebuffers@.len() == self.swapchain.image_count
        &&& self.vertex_buffer_offset <= GLOBAL_BUFFER_SIZE
        &&& self.index_buffer_offset <= GLOBAL_BUFFER_SIZE
        &&& self.vertex_buffer_offset % VERTEX_STRIDE == 0
        &&& self.index_buffer_offset % INDEX_STRIDE == 0
        &&& self.ids.wf()
        &&& self.swapchain.handle < self.ids.next
        &&& all_below(self.swapchain.image_views@, self.ids.next as int)
        &&& all_below(self.swapchain.framebuffers@, self.ids.next as int)
        &&& forall|j: int| 0 <= j < self.frames@.len()
            ==> all_below(
                (#[trigger] self.frames@[j]).delete_queue_framebuffers@,
                self.ids.next as int,
            ) && all_below(self.frames@[j].delete_queue_image_views@, self.ids.next as int)
    }

    /// Creates the renderer: negotiates the first swapchain, creates the
    /// render pass and the framebuffers over it, the upload command pool,
    /// one device image per supplied texture, the fixed pool of frame
    /// slots, and the two global geometry buffers with both arena cursors
    /// at zero.
    pub fn new(
        surface: &SurfaceInfo,
        graphics_queue_family: QueueFamily,
        present_queue_family: QueueFamily,
        images_data: &Vec<ImageData>,
    ) -> (r: Self)
        requires
            surface.wf(),
            forall|i: int| 0 <= i < images_data@.len()
                ==> (#[trigger] images_data@[i]).width <= u32::MAX
                    && images_data@[i].height <= u32::MAX,
            2 * spec_image_count(surface.capabilities) + 3 * images_data@.len() + 64
                <= u64::MAX,
        ensures
            r.wf(),
            r.current_frame_index == 0,
            r.vertex_buffer_offset == 0,
            r.index_buffer_offset == 0,
            r.vertex_buffer.size == GLOBAL_BUFFER_SIZE,
            r.index_buffer.size == GLOBAL_BUFFER_SIZE,
            r.frames@.len() == MAX_FRAMES_IN_FLIGHT,
            forall|j: int| 0 <= j < MAX_FRAMES_IN_FLIGHT
                ==> (#[trigger] r.frames@[j]).idle()
                    && r.frames@[j].delete_queue_framebuffers@.len() == 0
                    && r.frames@[j].delete_queue_image_views@.len() == 0,
            forall|j: int| 0 <= j < MAX_FRAMES_IN_FLIGHT
                ==> (#[trigger] r.frames@[j]).handles_pinned(
                    6 + 2 * spec_image_count(surface.capabilities) + 3 * images_data@.len()
                        + 11 * j,
                ),
            r.descriptor_set_layout.bindings@ == spec_layout_bindings(),
            r.descriptor_pool.max_sets == MAX_FRAMES_IN_FLIGHT as u32,
            r.descriptor_pool.pool_sizes@ == spec_renderer_pool_sizes(),
            r.descriptor_pool.allocated_sets == MAX_FRAMES_IN_FLIGHT as u32,
            r.swapchain.surface_format == spec_choose_surface_format(surface.formats@),
            r.swapchain.present_mode == spec_choose_present_mode(surface.present_modes@),
            r.swapchain.sharing_mode == spec_sharing_mode(
                graphics_queue_family,
                present_queue_family,
            ),
            r.swapchain.image_count == spec_image_count(surface.capabilities),
            r.swapchain.extent == spec_resolve_extent(
                surface.capabilities,
                surface.window_extent,
            ),
            r.swapchain.framebuffers@.len() == r.swapchain.image_count,
            r.images@.len() == images_data@.len(),
            forall|i: int| 0 <= i < images_data@.len()
                ==> (#[trigger] r.images@[i]).width == images_data@[i].width
                    && r.images@[i].height == images_data@[i].height,
            r.graphics_queue_family == graphics_queue_family,
            r.present_queue_family == present_queue_family,
            r.ids.next <= 2 * spec_image_count(surface.capabilities) + 3 * images_data@.len()
                + 64,
    {
        let mut ids = HandleAllocator::new();
        let mut swapchain = Swapchain::new(
            surface,
            graphics_queue_family,
            present_queue_family,
            0,
            None,
            &mut ids,
        );
        let render_pass = ids.fresh();

        let descriptor_set_layout = DescriptorSetLayout::new(&mut ids);
        let mut pool_sizes: Vec<PoolSize> = Vec::new();
        pool_sizes.push(PoolSize {
            descriptor_type: DESCRIPTOR_TYPE_UNIFORM_BUFFER,
            descriptor_count: MAX_FRAMES_IN_FLIGHT as u32,
        });
        pool_sizes.push(PoolSize {
            descriptor_type: DESCRIPTOR_TYPE_STORAGE_BUFFER,
            descriptor_count: MAX_FRAMES_IN_FLIGHT as u32,
        });
        pool_sizes.push(PoolSize {
            descriptor_type: DESCRIPTOR_TYPE_COMBINED_IMAGE_SAMPLER,
            descriptor_count: (MAX_FRAMES_IN_FLIGHT as u32) * 16,
        });
        proof {
            assert(pool_sizes@ =~= spec_renderer_pool_sizes());
        }
        let mut descriptor_pool = DescriptorPool::new(
            &mut ids,
            MAX_FRAMES_IN_FLIGHT as u32,
            pool_sizes,
        );

        swapchain.create_framebuffers(render_pass, &mut ids);
        let upload_command_pool = ids.fresh();

        let n_images = images_data.len();
        let mut images: Vec<Image> = Vec::new();
        let ghost images_base = ids.next as int;
        let mut i: usize = 0;
        while i < n_images
            invariant
                i <= n_images,
                n_images == images_data@.len(),
                ids.next == images_base + 3 * i,
                images_base + 3 * n_images + 48 <= u64::MAX,
                ids.wf(),
                images@.len() == i,
                forall|k: int| 0 <= k < n_images
                    ==> (#[trigger] images_data@[k]).width <= u32::MAX
                        && images_data@[k].height <= u32::MAX,
                forall|k: int| 0 <= k < i
                    ==> (#[trigger] images@[k]).width == images_data@[k].width
                        && images@[k].height == images_data@[k].height,
            decreases n_images - i,
        {
            let image = Image::new(&mut ids, &images_data[i]);
            images.push(image);
            i = i + 1;
        }

        let mut frames: Vec<FrameData> = Vec::new();
        let ghost frames_base = ids.next as int;
        let mut j: usize = 0;
        while j < MAX_FRAMES_IN_FLIGHT
            invariant
                j <= MAX_FRAMES_IN_FLIGHT,
                ids.next == frames_base + 11 * j,
                frames_base + 48 <= u64::MAX,
                ids.wf(),
                frames@.len() == j,
                descriptor_pool.allocated_sets == j,
                descriptor_pool.max_sets == MAX_FRAMES_IN_FLIGHT as u32,
                descriptor_pool.pool_sizes@ == spec_renderer_pool_sizes(),
                forall|k: int| 0 <= k < j
                    ==> (#[trigger] frames@[k]).idle()
                        && frames@[k].delete_queue_framebuffers@.len() == 0
                        && frames@[k].delete_queue_image_views@.len() == 0
                        && frames@[k].handles_pinned(frames_base + 11 * k),
            decreases MAX_FRAMES_IN_FLIGHT - j,
        {
            let frame = FrameData::new(&mut ids, &mut descriptor_pool);
            frames.push(frame);
            j = j + 1;
        }

        let vertex_buffer = AllocatedBuffer::new(&mut ids, GLOBAL_BUFFER_SIZE);
        let index_buffer = AllocatedBuffer::new(&mut ids, GLOBAL_BUFFER_SIZE);

        let r = Self {
            swapchain,
            render_pass,
            frames,
            current_frame_index: 0,
            vertex_buffer,
            vertex_buffer_offset: 0,
            index_buffer,
            index_buffer_offset: 0,
            upload_command_pool,
            descriptor_set_layout,
            descriptor_pool,
            images,
            graphics_queue_family,
            present_queue_family,
            ids,
        };
        proof {
            assert forall|v: int| 0 <= v < r.swapchain.image_views@.len()
                implies r.swapchain.image_views@[v] < r.ids.next by {
                assert(r.swapchain.image_views@[v] == (2 + v) as u64);
            }
            assert forall|v: int| 0 <= v < r.swapchain.framebuffers@.len()
                implies r.swapchain.framebuffers@[v] < r.ids.next by {
                assert(r.swapchain.framebuffers@[v]
                    == (5 + r.swapchain.image_count + v) as u64);
            }
            assert(frames_base == 6 + 2 * spec_image_count(surface.capabilities)
                + 3 * images_data@.len());
        }
        r
    }

    /// Reserves space for a mesh in the global geometry arena: when both
    /// the vertex and the index bytes fit the remaining capacity, the
    /// upload is carried out — one host-visible, host-coherent staging
    /// buffer of the reported size is filled with the vertex bytes then the
    /// index bytes, one immediate submission records exactly the two
    /// reported copies into the arena buffers at the old cursors, and the
    /// staging buffer is destroyed before return — a descriptor of the
    /// claimed region comes back, and the cursors move past it. When either
    /// region would cross the capacity, nothing comes back and the arena is
    /// left exactly as it was, before any staging allocation; the demo
    /// treats that as fatal at the call site, since arena exhaustion is not
    /// recoverable in this design.
    pub fn upload_mesh(&mut self, vertex_count: usize, index_count: usize) -> (r: Option<
        MeshUpload,
    >)
        requires
            old(self).wf(),
            index_count <= u32::MAX,
        ensures
            final(self).wf(),
            r is Some <==> upload_fits(
                old(self).vertex_buffer_offset as int,
                old(self).index_buffer_offset as int,
                vertex_count as int,
                index_count as int,
            ),
            match r {
                Some(up) => {
                    &&& up.mesh.index_count == index_count
                    &&& up.mesh.first_index == old(self).index_buffer_offset / INDEX_STRIDE
                    &&& up.mesh.vertex_offset
                        == old(self).vertex_buffer_offset / VERTEX_STRIDE
                    &&& up.staging_size == vertex_count * VERTEX_STRIDE + index_count
                        * INDEX_STRIDE
                    &&& up.vertex_copy == (CopyRegion {
                        src_offset: 0,
                        dst_offset: old(self).vertex_buffer_offset,
                        size: (vertex_count * VERTEX_STRIDE) as u64,
                    })
                    &&& up.index_copy == (CopyRegion {
                        src_offset: (vertex_count * VERTEX_STRIDE) as u64,
                        dst_offset: old(self).index_buffer_offset,
                        size: (index_count * INDEX_STRIDE) as u64,
                    })
                    &&& final(self).vertex_buffer_offset
                        == old(self).vertex_buffer_offset + vertex_count * VERTEX_STRIDE
                    &&& final(self).index_buffer_offset
                        == old(self).index_buffer_offset + index_count * INDEX_STRIDE
                },
                None => *final(self) == *old(self),
            },
            final(self).swapchain == old(self).swapchain,
            final(self).render_pass == old(self).render_pass,
            final(self).frames == old(self).frames,
            final(self).current_frame_index == old(self).current_frame_index,
            final(self).vertex_buffer == old(self).vertex_buffer,
            final(self).index_buffer == old(self).index_buffer,
            final(self).upload_command_pool == old(self).upload_command_pool,
            final(self).images == old(self).images,
            final(self).ids == old(self).ids,
    {
        if vertex_count > (GLOBAL_BUFFER_SIZE / VERTEX_STRIDE) as usize {
            proof {
                assert(vertex_count * VERTEX_STRIDE > GLOBAL_BUFFER_SIZE) by (nonlinear_arith)
                    requires vertex_count > GLOBAL_BUFFER_SIZE / VERTEX_STRIDE;
            }
            return None;
        }
        if index_count > (GLOBAL_BUFFER_SIZE / INDEX_STRIDE) as usize {
            proof {
                assert(index_count * INDEX_STRIDE > GLOBAL_BUFFER_SIZE) by (nonlinear_arith)
                    requires index_count > GLOBAL_BUFFER_SIZE / INDEX_STRIDE;
            }
            return None;
        }
        proof {
            assert(vertex_count * VERTEX_STRIDE <= GLOBAL_BUFFER_SIZE) by (nonlinear_arith)
                requires vertex_count <= GLOBAL_BUFFER_SIZE / VERTEX_STRIDE;
            assert(index_count * INDEX_STRIDE <= GLOBAL_BUFFER_SIZE) by (nonlinear_arith)
                requires index_count <= GLOBAL_BUFFER_SIZE / INDEX_STRIDE;
        }
        let vertex_bytes = (vertex_count as u64) * VERTEX_STRIDE;
        let index_bytes = (index_count as u64) * INDEX_STRIDE;

        if self.vertex_buffer_offset + vertex_bytes > GLOBAL_BUFFER_SIZE {
            return None;
        }
        if self.index_buffer_offset + index_bytes > GLOBAL_BUFFER_SIZE {
            return None;
        }

        let mesh = Mesh::new(
            index_count as u32,
            (self.index_buffer_offset / INDEX_STRIDE) as u32,
            (self.vertex_buffer_offset / VERTEX_STRIDE) as i32,
        );
        let upload = MeshUpload {
            mesh,
            staging_size: vertex_bytes + index_bytes,
            vertex_copy: CopyRegion {
                src_offset: 0,
                dst_offset: self.vertex_buffer_offset,
                size: vertex_bytes,
            },
            index_copy: CopyRegion {
                src_offset: vertex_bytes,
                dst_offset: self.index_buffer_offset,
                size: index_bytes,
            },
        };

        let ghost voff0 = self.vertex_buffer_offset as int;
        let ghost ioff0 = self.index_buffer_offset as int;
        self.vertex_buffer_offset = self.vertex_buffer_offset + vertex_bytes;
        self.index_buffer_offset = self.index_buffer_offset + index_bytes;
        proof {
            assert(self.vertex_buffer_offset % VERTEX_STRIDE == 0) by (nonlinear_arith)
                requires
                    self.vertex_buffer_offset == voff0 + vertex_count * VERTEX_STRIDE,
                    voff0 % (VERTEX_STRIDE as int) == 0,
                    voff0 >= 0,
                    vertex_count >= 0,
                ;
            assert(self.index_buffer_offset % INDEX_STRIDE == 0) by (nonlinear_arith)
                requires
                    self.index_buffer_offset == ioff0 + index_count * INDEX_STRIDE,
                    ioff0 % (INDEX_STRIDE as int) == 0,
                    ioff0 >= 0,
                    index_count >= 0,
                ;
        }

        Some(upload)
    }

    /// The startup texture upload for the given pixel data, one entry per
    /// image the renderer was created with: each image's bytes sit packed
    /// in input order in one staging buffer, and the single immediate
    /// submission transitions the image from undefined to transfer
    /// destination, copies its full extent from the packed offset, and
    /// transitions it to shader-read-only. The staging buffer is destroyed
    /// after the submission completes.
    pub fn texture_upload_plan(&self, images_data: &Vec<ImageData>) -> (r: TextureUploadPlan)
        requires
            images_data@.len() == self.images@.len(),
            forall|i: int| 0 <= i < images_data@.len()
                ==> (#[trigger] images_data@[i]).wf(),
            packed_offset(images_data@, images_data@.len() as int) <= u64::MAX,
        ensures
            r.staging_size == packed_offset(images_data@, images_data@.len() as int),
            r.uploads@.len() == images_data@.len(),
            forall|i: int| 0 <= i < images_data@.len() ==> r.uploads@[i] == (ImageUploadCmd {
                image: self.images@[i].handle,
                staging_offset: packed_offset(images_data@, i) as u64,
                width: self.images@[i].width,
                height: self.images@[i].height,
                initial_layout: IMAGE_LAYOUT_UNDEFINED,
                transfer_layout: IMAGE_LAYOUT_TRANSFER_DST_OPTIMAL,
                final_layout: IMAGE_LAYOUT_SHADER_READ_ONLY_OPTIMAL,
            }),
    {
        let n = images_data.len();
        let mut uploads: Vec<ImageUploadCmd> = Vec::new();
        let mut offset: u64 = 0;
        let mut i: usize = 0;
        while i < n
            invariant
                i <= n,
                n == images_data@.len() == self.images@.len(),
                offset == packed_offset(images_data@, i as int),
                packed_offset(images_data@, n as int) <= u64::MAX,
                forall|k: int| 0 <= k < n ==> (#[trigger] images_data@[k]).wf(),
                uploads@.len() == i,
                forall|k: int| 0 <= k < i ==> uploads@[k] == (ImageUploadCmd {
                    image: self.images@[k].handle,
                    staging_offset: packed_offset(images_data@, k) as u64,
                    width: self.images@[k].width,
                    height: self.images@[k].height,
                    initial_layout: IMAGE_LAYOUT_UNDEFINED,
                    transfer_layout: IMAGE_LAYOUT_TRANSFER_DST_OPTIMAL,
                    final_layout: IMAGE_LAYOUT_SHADER_READ_ONLY_OPTIMAL,
                }),
            decreases n - i,
        {
            proof {
                lemma_packed_offset_monotonic(images_data@, i + 1, n as int);
            }
            let size = images_data[i].get_data_size();
            let image = &self.images[i];
            uploads.push(ImageUploadCmd {
                image: image.handle,
                staging_offset: offset,
                width: image.width,
                height: image.height,
                initial_layout: IMAGE_LAYOUT_UNDEFINED,
                transfer_layout: IMAGE_LAYOUT_TRANSFER_DST_OPTIMAL,
                final_layout: IMAGE_LAYOUT_SHADER_READ_ONLY_OPTIMAL,
            });
            offset = offset + size as u64;
            i = i + 1;
        }
        TextureUploadPlan { staging_size: offset, uploads }
    }

    /// Retires the current swapchain's framebuffers and image views into
    /// the current frame slot's deletion queues, then recreates the
    /// swapchain against the surface's present state, pinning the surface
    /// format chosen at startup, and rebuilds framebuffers over the
    /// unchanged render pass. The retired resources are freed only when the
    /// current slot's turn comes round again.
    pub fn resize(&mut self, surface: &SurfaceInfo)
        requires
            old(self).wf(),
            surface.wf(),
            old(self).ids.next + 2 * spec_image_count(surface.capabilities) + 2 <= u64::MAX,
        ensures
            final(self).wf(),
            final(self).current_frame_index == old(self).current_frame_index,
            ({
                let s = old(self).current_frame_index as int;
                &&& final(self).frames@[s].delete_queue_framebuffers@
                    == old(self).frames@[s].delete_queue_framebuffers@
                        + old(self).swapchain.framebuffers@
                &&& final(self).frames@[s].delete_queue_image_views@
                    == old(self).frames@[s].delete_queue_image_views@
                        + old(self).swapchain.image_views@
                &&& final(self).frames@[s].same_resources(old(self).frames@[s])
                &&& final(self).frames@[s].in_flight_fence
                    == old(self).frames@[s].in_flight_fence
                &&& final(self).frames@[s].present_fence == old(self).frames@[s].present_fence
                &&& forall|j: int| 0 <= j < MAX_FRAMES_IN_FLIGHT && j != s
                    ==> final(self).frames@[j] == old(self).frames@[j]
            }),
            final(self).swapchain.surface_format == old(self).swapchain.surface_format,
            final(self).swapchain.present_mode == spec_choose_present_mode(
                surface.present_modes@,
            ),
            final(self).swapchain.sharing_mode == spec_sharing_mode(
                old(self).graphics_queue_family,
                old(self).present_queue_family,
            ),
            final(self).swapchain.image_count == spec_image_count(surface.capabilities),
            final(self).swapchain.extent == spec_resolve_extent(
                surface.capabilities,
                surface.window_extent,
            ),
            final(self).swapchain.framebuffers@.len() == final(self).swapchain.image_count,
            final(self).swapchain.handle != old(self).swapchain.handle,
            final(self).render_pass == old(self).render_pass,
            final(self).vertex_buffer == old(self).vertex_buffer,
            final(self).vertex_buffer_offset == old(self).vertex_buffer_offset,
            final(self).index_buffer == old(self).index_buffer,
            final(self).index_buffer_offset == old(self).index_buffer_offset,
            final(self).upload_command_pool == old(self).upload_command_pool,
            final(self).images == old(self).images,
            final(self).graphics_queue_family == old(self).graphics_queue_family,
            final(self).present_queue_family == old(self).present_queue_family,
            old(self).ids.next <= final(self).ids.next <= old(self).ids.next + 2
                * spec_image_count(surface.capabilities) + 2,
    {
        let s = self.current_frame_index;
        let ghost frames0 = self.frames@;
        let mut frame = self.frames.remove(s);
        let ghost frame0 = frame;

        let n_fb = self.swapchain.framebuffers.len();
        let mut i: usize = 0;
        while i < n_fb
            invariant
                i <= n_fb,
                n_fb == self.swapchain.framebuffers@.len(),
                frame.delete_queue_framebuffers@
                    == frame0.delete_queue_framebuffers@
                        + self.swapchain.framebuffers@.subrange(0, i as int),
                frame.delete_queue_image_views@ == frame0.delete_queue_image_views@,
                frame.same_resources(frame0),
                frame.in_flight_fence == frame0.in_flight_fence,
                frame.present_fence == frame0.present_fence,
            decreases n_fb - i,
        {
            let fb = self.swapchain.framebuffers[i];
            frame.delete_queue_framebuffers.push(fb);
            proof {
                assert(frame.delete_queue_framebuffers@
                    =~= frame0.delete_queue_framebuffers@
                        + self.swapchain.framebuffers@.subrange(0, i + 1));
            }
            i = i + 1;
        }
        let n_views = self.swapchain.image_views.len();
        let mut v: usize = 0;
        while v < n_views
            invariant
                v <= n_views,
                n_views == self.swapchain.image_views@.len(),
                n_fb == self.swapchain.framebuffers@.len(),
                frame.delete_queue_framebuffers@
                    == frame0.delete_queue_framebuffers@
                        + self.swapchain.framebuffers@.subrange(0, n_fb as int),
                frame.delete_queue_image_views@
                    == frame0.delete_queue_image_views@
                        + self.swapchain.image_views@.subrange(0, v as int),
                frame.same_resources(frame0),
                frame.in_flight_fence == frame0.in_flight_fence,
                frame.present_fence == frame0.present_fence,
            decreases n_views - v,
        {
            let view = self.swapchain.image_views[v];
            frame.delete_queue_image_views.push(view);
            proof {
                assert(frame.delete_queue_image_views@
                    =~= frame0.delete_queue_image_views@
                        + self.swapchain.image_views@.subrange(0, v + 1));
            }
            v = v + 1;
        }
        proof {
            assert(self.swapchain.framebuffers@.subrange(0, n_fb as int)
                =~= self.swapchain.framebuffers@);
            assert(self.swapchain.image_views@.subrange(0, n_views as int)
                =~= self.swapchain.image_views@);
        }
        let ghost frame1 = frame;
        self.frames.insert(s, frame);
        proof {
            assert(self.frames@ =~= frames0.update(s as int, frame1));
        }

        let ghost ids0 = self.ids;
        let old_handle = self.swapchain.handle;
        let pinned_format = self.swapchain.surface_format;
        let graphics_queue_family = self.graphics_queue_family;
        let present_queue_family = self.present_queue_family;
        let ghost old_chain = self.swapchain;
        let new_swapchain = Swapchain::new(
            surface,
            graphics_queue_family,
            present_queue_family,
            old_handle,
            Some(pinned_format),
            &mut self.ids,
        );
        self.swapchain = new_swapchain;
        self.swapchain.create_framebuffers(self.render_pass, &mut self.ids);

        proof {
            let next = self.ids.next as int;
            assert forall|t: int| 0 <= t < self.swapchain.image_views@.len()
                implies self.swapchain.image_views@[t] < next by {
                assert(self.swapchain.image_views@[t] == (ids0.next + 1 + t) as u64);
            }
            assert forall|t: int| 0 <= t < self.swapchain.framebuffers@.len()
                implies self.swapchain.framebuffers@[t] < next by {
                assert(self.swapchain.framebuffers@[t]
                    == (ids0.next + 1 + self.swapchain.image_count + t) as u64);
            }
            lemma_all_below_concat(
                frame0.delete_queue_framebuffers@,
                old_chain.framebuffers@,
                ids0.next as int,
            );
            lemma_all_below_concat(
                frame0.delete_queue_image_views@,
                old_chain.image_views@,
                ids0.next as int,
            );
            assert forall|j: int| 0 <= j < self.frames@.len()
                implies all_below(
                    (#[trigger] self.frames@[j]).delete_queue_framebuffers@,
                    next,
                ) && all_below(self.frames@[j].delete_queue_image_views@, next) by {
                lemma_all_below_le(
                    self.frames@[j].delete_queue_framebuffers@,
                    ids0.next as int,
                    next,
                );
                lemma_all_below_le(
                    self.frames@[j].delete_queue_image_views@,
                    ids0.next as int,
                    next,
                );
            }
        }
    }

    /// One step of the draw loop, run on the current slot: wait for the
    /// slot's fences, destroy the retired resources whose deferred turn has
    /// come, write the camera and object data into the slot's mapped
    /// buffers, acquire a swapchain image, record and submit one indexed
    /// draw per entity, present, and hand the slot cursor to the next slot.
    /// An out-of-date acquire skips the frame and recreates the swapchain;
    /// a suboptimal acquire still renders; a suboptimal or out-of-date
    /// present recreates the swapchain after the frame was handed over.
    pub fn draw_frame(
        &mut self,
        surface: &SurfaceInfo,
        meshes: &Vec<Mesh>,
        acquire: AcquireOutcome,
        present: PresentOutcome,
    ) -> (r: DrawReport)
        requires
            old(self).wf(),
            surface.wf(),
            meshes@.len() <= u32::MAX,
            match acquire {
                AcquireOutcome::Success(i) => i < old(self).swapchain.image_count,
                AcquireOutcome::Suboptimal(i) => i < old(self).swapchain.image_count,
                AcquireOutcome::OutOfDate => true,
            },
            old(self).ids.next + 2 * spec_image_count(surface.capabilities) + 2 <= u64::MAX,
        ensures
            final(self).wf(),
            r.slot == old(self).current_frame_index,
            final(self).current_frame_index == advance_slot(
                old(self).current_frame_index as int,
            ),
            r.freed_framebuffers@
                == old(self).frames@[r.slot as int].delete_queue_framebuffers@,
            r.freed_image_views@ == old(self).frames@[r.slot as int].delete_queue_image_views@,
            r.objects_written == (if meshes@.len() > MAX_OBJECT {
                MAX_OBJECT as int
            } else {
                meshes@.len() as int
            }),
            forall|j: int| 0 <= j < MAX_FRAMES_IN_FLIGHT && j != r.slot
                ==> final(self).frames@[j] == old(self).frames@[j],
            final(self).frames@[r.slot as int].same_resources(
                old(self).frames@[r.slot as int],
            ),
            final(self).render_pass == old(self).render_pass,
            final(self).vertex_buffer == old(self).vertex_buffer,
            final(self).vertex_buffer_offset == old(self).vertex_buffer_offset,
            final(self).index_buffer == old(self).index_buffer,
            final(self).index_buffer_offset == old(self).index_buffer_offset,
            final(self).upload_command_pool == old(self).upload_command_pool,
            final(self).images == old(self).images,
            final(self).graphics_queue_family == old(self).graphics_queue_family,
            final(self).present_queue_family == old(self).present_queue_family,
            match acquire {
                AcquireOutcome::OutOfDate => {
                    &&& !r.presented
                    &&& r.resized
                    &&& r.draws@.len() == 0
                    &&& final(self).frames@[r.slot as int].idle()
                    &&& final(self).frames@[r.slot as int].delete_queue_framebuffers@
                        == old(self).swapchain.framebuffers@
                    &&& final(self).frames@[r.slot as int].delete_queue_image_views@
                        == old(self).swapchain.image_views@
                },
                AcquireOutcome::Success(i) => draw_frame_rendered(
                    *old(self),
                    *final(self),
                    r,
                    meshes@,
                    i,
                    present,
                ),
                AcquireOutcome::Suboptimal(i) => draw_frame_rendered(
                    *old(self),
                    *final(self),
                    r,
                    meshes@,
                    i,
                    present,
                ),
            },
            r.resized ==> {
                &&& final(self).swapchain.surface_format
                    == old(self).swapchain.surface_format
                &&& final(self).swapchain.present_mode == spec_choose_present_mode(
                    surface.present_modes@,
                )
                &&& final(self).swapchain.image_count == spec_image_count(
                    surface.capabilities,
                )
                &&& final(self).swapchain.extent == spec_resolve_extent(
                    surface.capabilities,
                    surface.window_extent,
                )
                &&& final(self).swapchain.framebuffers@.len()
                    == final(self).swapchain.image_count
                &&& final(self).swapchain.handle != old(self).swapchain.handle
            },
            !r.resized ==> final(self).swapchain == old(self).swapchain && final(self).ids
                == old(self).ids,
            old(self).ids.next <= final(self).ids.next <= old(self).ids.next + 2
                * spec_image_count(surface.capabilities) + 2,
    {
        let s = self.current_frame_index;
        let ghost frames0 = self.frames@;
        let mut frame = self.frames.remove(s);

        // Block until the slot's previous use fully retired: the unbounded
        // wait returns once the driver has signaled both fences.
        frame.in_flight_fence.signaled = true;
        frame.present_fence.signaled = true;

        // Drain the slot's deletion queues: this is the only point where
        // retired swapchain resources are actually destroyed.
        let mut freed_framebuffers: Vec<u64> = Vec::new();
        let mut freed_image_views: Vec<u64> = Vec::new();
        core::mem::swap(&mut freed_framebuffers, &mut frame.delete_queue_framebuffers);
        core::mem::swap(&mut freed_image_views, &mut frame.delete_queue_image_views);

        // The camera record and the leading object records go into the
        // slot's persistently mapped buffers; the rest are cut off at the
        // storage buffer's capacity.
        let objects_written = if meshes.len() > MAX_OBJECT {
            MAX_OBJECT
        } else {
            meshes.len()
        };

        let image_index: u32;
        match acquire {
            AcquireOutcome::OutOfDate => {
                let ghost frame1 = frame;
                self.frames.insert(s, frame);
                proof {
                    assert(self.frames@ =~= frames0.update(s as int, frame1));
                }
                self.resize(surface);
                self.current_frame_index = (s + 1) % MAX_FRAMES_IN_FLIGHT;
                return DrawReport {
                    slot: s,
                    freed_framebuffers,
                    freed_image_views,
                    objects_written,
                    draws: Vec::new(),
                    image_index: 0,
                    presented: false,
                    resized: true,
                };
            },
            AcquireOutcome::Success(i) => {
                image_index = i;
            },
            AcquireOutcome::Suboptimal(i) => {
                image_index = i;
            },
        }

        // Reset both fences and the slot's command pool, then record: one
        // push-constant write and one indexed draw per entity.
        frame.in_flight_fence.signaled = false;
        frame.present_fence.signaled = false;
        let mut draws: Vec<DrawCmd> = Vec::new();
        let n = meshes.len();
        let mut k: usize = 0;
        while k < n
            invariant
                k <= n,
                n == meshes@.len() <= u32::MAX,
                draws@.len() == k,
                forall|t: int| 0 <= t < k ==> draws@[t]
                    == (DrawCmd { object_index: t as u32, mesh: meshes@[t] }),
            decreases n - k,
        {
            draws.push(DrawCmd { object_index: k as u32, mesh: meshes[k] });
            k = k + 1;
        }

        // Submit waits on image-available, signals render-finished and the
        // in-flight fence; present waits on render-finished and attaches
        // the present fence, so both fences are now in flight.
        let ghost frame1 = frame;
        self.frames.insert(s, frame);
        proof {
            assert(self.frames@ =~= frames0.update(s as int, frame1));
        }

        let mut resized = false;
        match present {
            PresentOutcome::Success => {},
            PresentOutcome::Suboptimal => {
                self.resize(surface);
                resized = true;
            },
            PresentOutcome::OutOfDate => {
                self.resize(surface);
                resized = true;
            },
        }
        self.current_frame_index = (s + 1) % MAX_FRAMES_IN_FLIGHT;
        DrawReport {
            slot: s,
            freed_framebuffers,
            freed_image_views,
            objects_written,
            draws,
            image_index,
            presented: true,
            resized,
        }
    }

    /// The device layer reports that the GPU finished slot `slot`'s work:
    /// the submitted batch completed, signaling the in-flight fence, and
    /// the present operation completed, signaling the present fence.
    pub fn notify_frame_complete(&mut self, slot: usize)
        requires
            old(self).wf(),
            slot < MAX_FRAMES_IN_FLIGHT,
        ensures
            final(self).wf(),
            final(self).frames@[slot as int].idle(),
            final(self).frames@[slot as int].same_resources(old(self).frames@[slot as int]),
            final(self).frames@[slot as int].delete_queue_framebuffers
                == old(self).frames@[slot as int].delete_queue_framebuffers,
            final(self).frames@[slot as int].delete_queue_image_views
                == old(self).frames@[slot as int].delete_queue_image_views,
            forall|j: int| 0 <= j < MAX_FRAMES_IN_FLIGHT && j != slot
                ==> final(self).frames@[j] == old(self).frames@[j],
            final(self).swapchain == old(self).swapchain,
            final(self).current_frame_index == old(self).current_frame_index,
            final(self).render_pass == old(self).render_pass,
            final(self).vertex_buffer == old(self).vertex_buffer,
            final(self).vertex_buffer_offset == old(self).vertex_buffer_offset,
            final(self).index_buffer == old(self).index_buffer,
            final(self).index_buffer_offset == old(self).index_buffer_offset,
            final(self).upload_command_pool == old(self).upload_command_pool,
            final(self).images == old(self).images,
            final(self).ids == old(self).ids,
    {
        let ghost frames0 = self.frames@;
        let mut frame = self.frames.remove(slot);
        frame.in_flight_fence.signaled = true;
        frame.present_fence.signaled = true;
        let ghost frame1 = frame;
        self.frames.insert(slot, frame);
        proof {
            assert(self.frames@ =~= frames0.update(slot as int, frame1));
        }
    }
}

/// The state a draw step leaves behind when it rendered and presented a
/// frame: the acquired image index is reported, one draw per entity was
/// recorded in order, both of the slot's fences are back in flight, and a
/// clean present leaves the swapchain alone while a stale one retires it
/// into the slot's queues and recreates it.
pub open spec fn draw_frame_rendered(
    pre: Renderer,
    post: Renderer,
    r: DrawReport,
    meshes: Seq<Mesh>,
    image_index: u32,
    present: PresentOutcome,
) -> bool {
    &&& r.presented
    &&& r.image_index == image_index
    &&& r.draws.len() == meshes.len()
    &&& forall|t: int| 0 <= t < meshes.len() ==> r.draws[t]
        == (DrawCmd { object_index: t as u32, mesh: meshes[t] })
    &&& !post.frames@[r.slot as int].in_flight_fence.signaled
    &&& !post.frames@[r.slot as int].present_fence.signaled
    &&& match present {
        PresentOutcome::Success => {
            &&& !r.resized
            &&& post.frames@[r.slot as int].delete_queue_framebuffers@.len() == 0
            &&& post.frames@[r.slot as int].delete_queue_image_views@.len() == 0
        },
        PresentOutcome::Suboptimal => {
            &&& r.resized
            &&& post.frames@[r.slot as int].delete_queue_framebuffers@
                == pre.swapchain.framebuffers@
            &&& post.frames@[r.slot as int].delete_queue_image_views@
                == pre.swapchain.image_views@
        },
        PresentOutcome::OutOfDate => {
            &&& r.resized
            &&& post.frames@[r.slot as int].delete_queue_framebuffers@
                == pre.swapchain.framebuffers@
            &&& post.frames@[r.slot as int].delete_queue_image_views@
                == pre.swapchain.image_views@
        },
    }
}

} // verus!

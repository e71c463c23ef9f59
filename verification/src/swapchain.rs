use vstd::prelude::*;

use crate::instance::QueueFamily;
use crate::utils::HandleAllocator;

verus! {

/// The pixel format the demo prefers for its swapchain images.
pub const FORMAT_B8G8R8A8_UNORM: u32 = 44;

/// The color space the demo prefers, for correct gamma on presentation.
pub const COLOR_SPACE_SRGB_NONLINEAR: u32 = 0;

/// Low-latency present mode without visible stutter; not always supported.
pub const PRESENT_MODE_MAILBOX: u32 = 1;

/// Vsync-locked present mode; every surface supports it.
pub const PRESENT_MODE_FIFO: u32 = 2;

/// Sentinel width: the surface leaves the extent to the window.
pub const EXTENT_UNDEFINED: u32 = 0xFFFF_FFFF;

#[derive(Clone, Copy, Debug, PartialEq, Eq, Structural)]
pub struct Extent2d {
    pub width: u32,
    pub height: u32,
}

#[derive(Clone, Copy, Debug, PartialEq, Eq, Structural)]
pub struct SurfaceFormat {
    pub format: u32,
    pub color_space: u32,
}

/// One supported surface format as reported by the driver, together with
/// whether the format can serve as a color attachment under optimal tiling.
#[derive(Clone, Copy, Debug, PartialEq, Eq, Structural)]
pub struct FormatSupport {
    pub format: u32,
    pub color_space: u32,
    pub attachment_capable: bool,
}

/// The bounds the surface reports for swapchain creation. A
/// `max_image_count` of zero means the surface sets no upper bound; a
/// `current_extent` width of `EXTENT_UNDEFINED` means the surface lets the
/// window size decide the extent.
#[derive(Clone, Copy, Debug, PartialEq, Eq, Structural)]
pub struct SurfaceCapabilities {
    pub min_image_count: u32,
    pub max_image_count: u32,
    pub current_extent: Extent2d,
    pub min_image_extent: Extent2d,
    pub max_image_extent: Extent2d,
}

impl SurfaceCapabilities {
    /// What the platform guarantees of a capabilities record.
    pub open spec fn wf(self) -> bool {
        &&& 1 <= self.min_image_count
        &&& self.min_image_count < u32::MAX
        &&& self.max_image_count == 0 || self.min_image_count <= self.max_image_count
        &&& self.min_image_extent.width <= self.max_image_extent.width
        &&& self.min_image_extent.height <= self.max_image_extent.height
    }
}

/// Everything swapchain creation reads from the surface and the window.
pub struct SurfaceInfo {
    pub capabilities: SurfaceCapabilities,
    pub formats: Vec<FormatSupport>,
    pub present_modes: Vec<u32>,
    pub window_extent: Extent2d,
}

impl SurfaceInfo {
    pub open spec fn wf(self) -> bool {
        &&& self.capabilities.wf()
        &&& self.formats@.len() >= 1
    }
}

/// The format entry the selection prefers: the favored pixel format and
/// color space, reported usable as a color attachment.
pub open spec fn preferred_format(f: FormatSupport) -> bool {
    &&& f.format == FORMAT_B8G8R8A8_UNORM
    &&& f.color_space == COLOR_SPACE_SRGB_NONLINEAR
    &&& f.attachment_capable
}

/// Index of the first preferred entry of the format list, or -1 when none
/// qualifies.
pub open spec fn first_preferred(s: Seq<FormatSupport>) -> int
    decreases s.len(),
{
    if s.len() == 0 {
        -1
    } else if preferred_format(s[0]) {
        0
    } else {
        let rest = first_preferred(s.subrange(1, s.len() as int));
        if rest < 0 {
            -1
        } else {
            rest + 1
        }
    }
}

/// The format the swapchain is created with: the first preferred entry when
/// one exists, the first reported entry otherwise.
pub open spec fn spec_choose_surface_format(s: Seq<FormatSupport>) -> SurfaceFormat {
    if first_preferred(s) >= 0 {
        SurfaceFormat {
            format: s[first_preferred(s)].format,
            color_space: s[first_preferred(s)].color_space,
        }
    } else {
        SurfaceFormat { format: s[0].format, color_space: s[0].color_space }
    }
}

/// Surface format selection law: when the list holds a preferred entry, the
/// selection index is the earliest such entry, wherever it sits in the list;
/// when it holds none, the selection falls back to the first entry.
pub proof fn lemma_surface_format_selection(s: Seq<FormatSupport>)
    ensures
        first_preferred(s) == -1 ==> forall|j: int|
            0 <= j < s.len() ==> !preferred_format(s[j]),
        first_preferred(s) != -1 ==> {
            &&& 0 <= first_preferred(s) < s.len()
            &&& preferred_format(s[first_preferred(s)])
            &&& forall|j: int| 0 <= j < first_preferred(s) ==> !preferred_format(s[j])
        },
    decreases s.len(),
{
    if s.len() == 0 {
    } else if preferred_format(s[0]) {
    } else {
        let t = s.subrange(1, s.len() as int);
        lemma_surface_format_selection(t);
        let rest = first_preferred(t);
        if rest == -1 {
            assert forall|j: int| 0 <= j < s.len() implies !preferred_format(s[j]) by {
                if j >= 1 {
                    assert(t[j - 1] == s[j]);
                }
            }
        } else {
            assert(s[rest + 1] == t[rest]);
            assert forall|j: int| 0 <= j < rest + 1 implies !preferred_format(s[j]) by {
                if j >= 1 {
                    assert(t[j - 1] == s[j]);
                }
            }
        }
    }
}

/// The earliest preferred index is where the first-preferred scan stops.
proof fn lemma_first_preferred_at(s: Seq<FormatSupport>, i: int)
    requires
        0 <= i < s.len(),
        preferred_format(s[i]),
        forall|j: int| 0 <= j < i ==> !preferred_format(s[j]),
    ensures
        first_preferred(s) == i,
    decreases i,
{
    if i == 0 {
    } else {
        let t = s.subrange(1, s.len() as int);
        assert(forall|j: int| 0 <= j < t.len() ==> t[j] == s[j + 1]);
        lemma_first_preferred_at(t, i - 1);
    }
}

/// A list without a preferred entry makes the scan come up empty.
proof fn lemma_first_preferred_none(s: Seq<FormatSupport>)
    requires
        forall|j: int| 0 <= j < s.len() ==> !preferred_format(s[j]),
    ensures
        first_preferred(s) == -1,
    decreases s.len(),
{
    if s.len() == 0 {
    } else {
        let t = s.subrange(1, s.len() as int);
        assert(forall|j: int| 0 <= j < t.len() ==> t[j] == s[j + 1]);
        lemma_first_preferred_none(t);
    }
}

/// Picks the surface format: the first entry matching the preferred pixel
/// format and color space and capable of color attachment, else the first
/// entry the driver reported.
pub fn choose_surface_format(formats: &Vec<FormatSupport>) -> (r: SurfaceFormat)
    requires
        formats@.len() >= 1,
    ensures
        r == spec_choose_surface_format(formats@),
{
    let n = formats.len();
    for i in 0..n
        invariant
            n == formats@.len() >= 1,
            forall|j: int| 0 <= j < i ==> !preferred_format(formats@[j]),
    {
        let f = formats[i];
        if f.attachment_capable
            && f.format == FORMAT_B8G8R8A8_UNORM
            && f.color_space == COLOR_SPACE_SRGB_NONLINEAR {
            proof {
                lemma_first_preferred_at(formats@, i as int);
            }
            return SurfaceFormat { format: f.format, color_space: f.color_space };
        }
    }
    proof {
        lemma_first_preferred_none(formats@);
    }
    let f = formats[0];
    SurfaceFormat { format: f.format, color_space: f.color_space }
}

/// The present mode the swapchain is created with: mailbox when offered,
/// else the always-supported FIFO mode.
pub open spec fn spec_choose_present_mode(modes: Seq<u32>) -> u32 {
    if modes.contains(PRESENT_MODE_MAILBOX) {
        PRESENT_MODE_MAILBOX
    } else {
        PRESENT_MODE_FIFO
    }
}

pub fn choose_present_mode(present_modes: &Vec<u32>) -> (r: u32)
    ensures
        r == spec_choose_present_mode(present_modes@),
{
    let n = present_modes.len();
    for i in 0..n
        invariant
            n == present_modes@.len(),
            forall|j: int| 0 <= j < i ==> present_modes@[j] != PRESENT_MODE_MAILBOX,
    {
        if present_modes[i] == PRESENT_MODE_MAILBOX {
            return PRESENT_MODE_MAILBOX;
        }
    }
    assert(!present_modes@.contains(PRESENT_MODE_MAILBOX));
    PRESENT_MODE_FIFO
}

/// The image count the swapchain asks for: one more than the surface's
/// minimum, clamped to the maximum when the surface sets one.
pub open spec fn spec_image_count(caps: SurfaceCapabilities) -> int {
    if caps.max_image_count > 0 && caps.min_image_count + 1 > caps.max_image_count {
        caps.max_image_count as int
    } else {
        caps.min_image_count + 1
    }
}

pub fn resolve_image_count(caps: &SurfaceCapabilities) -> (r: u32)
    requires
        caps.wf(),
    ensures
        r == spec_image_count(*caps),
        1 <= r <= caps.min_image_count + 1,
{
    let mut image_count = caps.min_image_count + 1;
    if caps.max_image_count > 0 && image_count > caps.max_image_count {
        image_count = caps.max_image_count;
    }
    image_count
}

/// `v` clamped into `[lo, hi]`: the minimum is applied to values below it,
/// the maximum to values above it.
pub open spec fn clamped(lo: int, hi: int, v: int) -> int {
    if v < lo {
        lo
    } else if v > hi {
        hi
    } else {
        v
    }
}

/// The extent the swapchain images get: the surface's current extent when
/// it defines one, else the window's size clamped into the surface's
/// supported extent range.
pub open spec fn spec_resolve_extent(caps: SurfaceCapabilities, window: Extent2d) -> Extent2d {
    if caps.current_extent.width != EXTENT_UNDEFINED {
        caps.current_extent
    } else {
        Extent2d {
            width: clamped(
                caps.min_image_extent.width as int,
                caps.max_image_extent.width as int,
                window.width as int,
            ) as u32,
            height: clamped(
                caps.min_image_extent.height as int,
                caps.max_image_extent.height as int,
                window.height as int,
            ) as u32,
        }
    }
}

pub fn resolve_extent(caps: &SurfaceCapabilities, window: Extent2d) -> (r: Extent2d)
    requires
        caps.wf(),
    ensures
        r == spec_resolve_extent(*caps, window),
{
    if caps.current_extent.width != EXTENT_UNDEFINED {
        caps.current_extent
    } else {
        let width = if window.width > caps.max_image_extent.width {
            caps.max_image_extent.width
        } else {
            window.width
        };
        let width = if width < caps.min_image_extent.width {
            caps.min_image_extent.width
        } else {
            width
        };
        let height = if window.height > caps.max_image_extent.height {
            caps.max_image_extent.height
        } else {
            window.height
        };
        let height = if height < caps.min_image_extent.height {
            caps.min_image_extent.height
        } else {
            height
        };
        Extent2d { width, height }
    }
}

/// How the swapchain images are shared between the graphics and present
/// queues: exclusive when one family serves both, concurrent otherwise.
#[derive(Clone, Copy, Debug, PartialEq, Eq, Structural)]
pub enum SharingMode {
    Exclusive,
    Concurrent,
}

pub open spec fn spec_sharing_mode(graphics: QueueFamily, present: QueueFamily) -> SharingMode {
    if graphics.family_index == present.family_index {
        SharingMode::Exclusive
    } else {
        SharingMode::Concurrent
    }
}

pub fn choose_sharing_mode(graphics: QueueFamily, present: QueueFamily) -> (r: SharingMode)
    ensures
        r == spec_sharing_mode(graphics, present),
{
    if graphics.family_index == present.family_index {
        SharingMode::Exclusive
    } else {
        SharingMode::Concurrent
    }
}

/// The presentation-facing state of one swapchain: the negotiated format,
/// present mode, sharing mode and extent, the image chain's view handles,
/// and the framebuffers built over them. The view and framebuffer lists
/// always match the negotiated image count; framebuffers are built in a
/// second step, so their list may still be empty.
pub struct Swapchain {
    pub handle: u64,
    pub image_count: u32,
    pub image_views: Vec<u64>,
    pub surface_format: SurfaceFormat,
    pub present_mode: u32,
    pub sharing_mode: SharingMode,
    pub extent: Extent2d,
    pub framebuffers: Vec<u64>,
}

impl Swapchain {
    pub open spec fn wf(self) -> bool {
        &&& self.image_views@.len() == self.image_count
        &&& (self.framebuffers@.len() == 0 || self.framebuffers@.len() == self.image_count)
    }

    /// Negotiates and creates a swapchain: picks the surface format (unless
    /// one is pinned from an earlier creation), present mode, image count,
    /// extent and sharing mode, creates the chain handing the retired
    /// handle to the driver, and creates one view per image. The retired
    /// chain's views and framebuffers are not touched here; retiring them
    /// is the renderer's deferred-deletion path.
    pub fn new(
        surface: &SurfaceInfo,
        graphics_queue_family: QueueFamily,
        present_queue_family: QueueFamily,
        old_swapchain: u64,
        surface_format: Option<SurfaceFormat>,
        ids: &mut HandleAllocator,
    ) -> (r: Self)
        requires
            surface.wf(),
            old(ids).next + 1 + spec_image_count(surface.capabilities) <= u64::MAX,
        ensures
            r.wf(),
            r.surface_format == (match surface_format {
                Some(f) => f,
                None => spec_choose_surface_format(surface.formats@),
            }),
            r.present_mode == spec_choose_present_mode(surface.present_modes@),
            r.sharing_mode == spec_sharing_mode(graphics_queue_family, present_queue_family),
            r.image_count == spec_image_count(surface.capabilities),
            r.extent == spec_resolve_extent(surface.capabilities, surface.window_extent),
            r.handle == old(ids).next,
            old_swapchain < old(ids).next ==> r.handle != old_swapchain,
            r.image_views@ == Seq::new(
                r.image_count as nat,
                |i: int| (old(ids).next + 1 + i) as u64,
            ),
            r.framebuffers@.len() == 0,
            final(ids).next == old(ids).next + 1 + r.image_count,
            old(ids).wf() ==> final(ids).wf(),
    {
        let surface_format = match surface_format {
            Some(surface_format) => surface_format,
            None => choose_surface_format(&surface.formats),
        };
        let present_mode = choose_present_mode(&surface.present_modes);
        let sharing_mode = choose_sharing_mode(graphics_queue_family, present_queue_family);
        let image_count = resolve_image_count(&surface.capabilities);
        let extent = resolve_extent(&surface.capabilities, surface.window_extent);

        let handle = ids.fresh();
        let mut image_views: Vec<u64> = Vec::new();
        let ghost views_base = ids.next as int;
        let mut i: u32 = 0;
        while i < image_count
            invariant
                i <= image_count,
                ids.next == views_base + i,
                views_base + image_count <= u64::MAX,
                image_views@ == Seq::new(i as nat, |j: int| (views_base + j) as u64),
            decreases image_count - i,
        {
            let view = ids.fresh();
            image_views.push(view);
            proof {
                assert(image_views@ =~= Seq::new(
                    (i + 1) as nat,
                    |j: int| (views_base + j) as u64,
                ));
            }
            i = i + 1;
        }

        Self {
            handle,
            image_count,
            image_views,
            surface_format,
            present_mode,
            sharing_mode,
            extent,
            framebuffers: Vec::new(),
        }
    }

    /// Builds one single-attachment framebuffer per image view, over the
    /// render pass the renderer draws with.
    pub fn create_framebuffers(&mut self, _render_pass: u64, ids: &mut HandleAllocator) -> (r: ())
        requires
            old(ids).next + old(self).image_views@.len() <= u64::MAX,
        ensures
            final(self).framebuffers@ == Seq::new(
                old(self).image_views@.len(),
                |i: int| (old(ids).next + i) as u64,
            ),
            final(self).handle == old(self).handle,
            final(self).image_count == old(self).image_count,
            final(self).image_views == old(self).image_views,
            final(self).surface_format == old(self).surface_format,
            final(self).present_mode == old(self).present_mode,
            final(self).sharing_mode == old(self).sharing_mode,
            final(self).extent == old(self).extent,
            final(ids).next == old(ids).next + old(self).image_views@.len(),
            old(ids).wf() ==> final(ids).wf(),
            old(self).wf() ==> final(self).wf(),
    {
        let mut framebuffers: Vec<u64> = Vec::new();
        let ghost fb_base = ids.next as int;
        let n = self.image_views.len();
        let mut i: usize = 0;
        while i < n
            invariant
                i <= n,
                n == self.image_views@.len(),
                ids.next == fb_base + i,
                fb_base + n <= u64::MAX,
                framebuffers@ == Seq::new(i as nat, |j: int| (fb_base + j) as u64),
            decreases n - i,
        {
            let fb = ids.fresh();
            framebuffers.push(fb);
            proof {
                assert(framebuffers@ =~= Seq::new((i + 1) as nat, |j: int| (fb_base + j) as u64));
            }
            i = i + 1;
        }
        self.framebuffers = framebuffers;
    }

    /// Tears the chain down at shutdown: framebuffers, then views, then the
    /// chain handle itself.
    pub fn destroy(&mut self)
        ensures
            final(self).framebuffers@.len() == 0,
            final(self).image_views@.len() == 0,
            final(self).handle == old(self).handle,
    {
        self.framebuffers.clear();
        self.image_views.clear();
    }
}

} // verus!

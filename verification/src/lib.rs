//! Core state and decision logic of a minimal real-time renderer.
//!
//! The library models the frame lifecycle of a swapchain-backed presentation
//! loop: a fixed pool of frame slots used round-robin, a bump-allocated
//! geometry arena, deferred deletion of retired swapchain resources, and the
//! capability negotiation that picks a surface format, present mode, image
//! count and extent. The platform window layer and the GPU driver are
//! external collaborators: they hand the library plain values (sizes,
//! capability records, acquire and present outcomes) and carry out the
//! actions the library decides on.

use vstd::prelude::*;

pub mod buffer;
pub mod descriptors;
pub mod frame;
pub mod image;
pub mod instance;
pub mod mesh;
pub mod renderer;
pub mod swapchain;
pub mod utils;

verus! {

/// Packs a version number the way the graphics API encodes it: the variant in
/// the top three bits, then seven bits of major, ten of minor and twelve of
/// patch.
pub open spec fn spec_make_version(variant: u32, major: u32, minor: u32, patch: u32) -> u32 {
    (variant << 29u32) | (major << 22u32) | (minor << 12u32) | patch
}

pub fn make_version(variant: u32, major: u32, minor: u32, patch: u32) -> (r: u32)
    ensures
        r == spec_make_version(variant, major, minor, patch),
{
    ((variant) << 29u32) | ((major) << 22u32) | ((minor) << 12u32) | (patch)
}

} // verus!

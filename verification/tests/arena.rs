use kast::instance::QueueFamily;
use kast::renderer::{Renderer, GLOBAL_BUFFER_SIZE, INDEX_STRIDE, VERTEX_STRIDE};
use kast::swapchain::{Extent2d, FormatSupport, SurfaceCapabilities, SurfaceInfo};

fn synthetic_surface() -> SurfaceInfo {
    SurfaceInfo {
        capabilities: SurfaceCapabilities {
            min_image_count: 2,
            max_image_count: 3,
            current_extent: Extent2d { width: 640, height: 480 },
            min_image_extent: Extent2d { width: 1, height: 1 },
            max_image_extent: Extent2d { width: 4096, height: 4096 },
        },
        formats: vec![FormatSupport { format: 37, color_space: 0, attachment_capable: true }],
        present_modes: vec![2],
        window_extent: Extent2d { width: 640, height: 480 },
    }
}

fn fresh_renderer() -> Renderer {
    Renderer::new(
        &synthetic_surface(),
        QueueFamily::new(0, 0),
        QueueFamily::new(0, 0),
        &Vec::new(),
    )
}

#[test]
fn upload_returns_region_at_cursor_and_advances() {
    let mut r = fresh_renderer();
    let square = r.upload_mesh(4, 6).unwrap().mesh;
    assert_eq!(square.index_count, 6);
    assert_eq!(square.first_index, 0);
    assert_eq!(square.vertex_offset, 0);
    assert_eq!(r.vertex_buffer_offset, 4 * VERTEX_STRIDE);
    assert_eq!(r.index_buffer_offset, 6 * INDEX_STRIDE);

    let triangle = r.upload_mesh(3, 3).unwrap().mesh;
    assert_eq!(triangle.index_count, 3);
    // The second mesh starts exactly where the first one ended: offsets are
    // non-decreasing and the regions cannot overlap.
    assert_eq!(triangle.first_index, 6);
    assert_eq!(triangle.vertex_offset, 4);
    assert_eq!(r.vertex_buffer_offset, 7 * VERTEX_STRIDE);
    assert_eq!(r.index_buffer_offset, 9 * INDEX_STRIDE);
}

#[test]
fn upload_reports_the_staging_plan() {
    let mut r = fresh_renderer();
    let first = r.upload_mesh(4, 6).unwrap();
    // One staging buffer: 80 vertex bytes then 24 index bytes, copied to
    // the arena buffers at the old cursors (both zero).
    assert_eq!(first.staging_size, 4 * VERTEX_STRIDE + 6 * INDEX_STRIDE);
    assert_eq!(first.vertex_copy.src_offset, 0);
    assert_eq!(first.vertex_copy.dst_offset, 0);
    assert_eq!(first.vertex_copy.size, 4 * VERTEX_STRIDE);
    assert_eq!(first.index_copy.src_offset, 4 * VERTEX_STRIDE);
    assert_eq!(first.index_copy.dst_offset, 0);
    assert_eq!(first.index_copy.size, 6 * INDEX_STRIDE);

    let second = r.upload_mesh(3, 3).unwrap();
    assert_eq!(second.staging_size, 3 * VERTEX_STRIDE + 3 * INDEX_STRIDE);
    assert_eq!(second.vertex_copy.dst_offset, 4 * VERTEX_STRIDE);
    assert_eq!(second.index_copy.src_offset, 3 * VERTEX_STRIDE);
    assert_eq!(second.index_copy.dst_offset, 6 * INDEX_STRIDE);
}

#[test]
fn upload_that_exceeds_capacity_is_rejected_and_changes_nothing() {
    let mut r = fresh_renderer();
    r.upload_mesh(4, 6).unwrap();
    let voff = r.vertex_buffer_offset;
    let ioff = r.index_buffer_offset;

    let too_many_vertices = (GLOBAL_BUFFER_SIZE / VERTEX_STRIDE) as usize + 1;
    assert!(r.upload_mesh(too_many_vertices, 3).is_none());
    assert_eq!(r.vertex_buffer_offset, voff);
    assert_eq!(r.index_buffer_offset, ioff);

    let too_many_indices = (GLOBAL_BUFFER_SIZE / INDEX_STRIDE) as usize + 1;
    assert!(r.upload_mesh(3, too_many_indices).is_none());
    assert_eq!(r.vertex_buffer_offset, voff);
    assert_eq!(r.index_buffer_offset, ioff);

    // The arena is still usable after a rejected request.
    let next = r.upload_mesh(1, 1).unwrap().mesh;
    assert_eq!(next.first_index, ioff as u32 / INDEX_STRIDE as u32);
}

#[test]
fn upload_fills_exactly_to_capacity() {
    let mut r = fresh_renderer();
    let all_vertices = (GLOBAL_BUFFER_SIZE / VERTEX_STRIDE) as usize;
    let mesh = r.upload_mesh(all_vertices, 0).unwrap().mesh;
    assert_eq!(mesh.index_count, 0);
    assert_eq!(r.vertex_buffer_offset, all_vertices as u64 * VERTEX_STRIDE);
    // One more vertex cannot fit; indices alone still can.
    assert!(r.upload_mesh(1, 0).is_none());
    let indices_only = r.upload_mesh(0, 12).unwrap().mesh;
    assert_eq!(indices_only.first_index, 0);
    assert_eq!(indices_only.index_count, 12);
}

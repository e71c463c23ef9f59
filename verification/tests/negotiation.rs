use kast::instance::QueueFamily;
use kast::make_version;
use kast::swapchain::{
    choose_present_mode, choose_sharing_mode, choose_surface_format, resolve_extent,
    resolve_image_count, Extent2d, FormatSupport, SharingMode, SurfaceCapabilities,
    COLOR_SPACE_SRGB_NONLINEAR, EXTENT_UNDEFINED, FORMAT_B8G8R8A8_UNORM, PRESENT_MODE_FIFO,
    PRESENT_MODE_MAILBOX,
};
use kast::utils::{find_memory_type, MemoryType};

fn caps_with_extents(cur_w: u32, cur_h: u32, min_e: u32, max_e: u32) -> SurfaceCapabilities {
    SurfaceCapabilities {
        min_image_count: 2,
        max_image_count: 0,
        current_extent: Extent2d { width: cur_w, height: cur_h },
        min_image_extent: Extent2d { width: min_e, height: min_e },
        max_image_extent: Extent2d { width: max_e, height: max_e },
    }
}

#[test]
fn extent_clamps_window_size() {
    let caps = caps_with_extents(EXTENT_UNDEFINED, 0, 100, 800);
    let e = resolve_extent(&caps, Extent2d { width: 50, height: 1000 });
    assert_eq!(e.width, 100);
    assert_eq!(e.height, 800);
}

#[test]
fn extent_keeps_window_size_inside_bounds() {
    let caps = caps_with_extents(EXTENT_UNDEFINED, 0, 100, 800);
    let e = resolve_extent(&caps, Extent2d { width: 640, height: 480 });
    assert_eq!(e.width, 640);
    assert_eq!(e.height, 480);
}

#[test]
fn extent_uses_current_when_defined() {
    let caps = caps_with_extents(1024, 768, 100, 800);
    let e = resolve_extent(&caps, Extent2d { width: 50, height: 1000 });
    assert_eq!(e.width, 1024);
    assert_eq!(e.height, 768);
}

fn preferred_entry() -> FormatSupport {
    FormatSupport {
        format: FORMAT_B8G8R8A8_UNORM,
        color_space: COLOR_SPACE_SRGB_NONLINEAR,
        attachment_capable: true,
    }
}

fn other_entry() -> FormatSupport {
    FormatSupport { format: 37, color_space: 1, attachment_capable: true }
}

#[test]
fn surface_format_preferred_entry_wins_when_first() {
    let formats = vec![preferred_entry(), other_entry()];
    let f = choose_surface_format(&formats);
    assert_eq!(f.format, FORMAT_B8G8R8A8_UNORM);
    assert_eq!(f.color_space, COLOR_SPACE_SRGB_NONLINEAR);
}

#[test]
fn surface_format_preferred_entry_wins_when_last() {
    let formats = vec![other_entry(), other_entry(), preferred_entry()];
    let f = choose_surface_format(&formats);
    assert_eq!(f.format, FORMAT_B8G8R8A8_UNORM);
    assert_eq!(f.color_space, COLOR_SPACE_SRGB_NONLINEAR);
}

#[test]
fn surface_format_falls_back_to_first_entry() {
    let formats = vec![other_entry(), FormatSupport { format: 5, color_space: 9, attachment_capable: false }];
    let f = choose_surface_format(&formats);
    assert_eq!(f.format, 37);
    assert_eq!(f.color_space, 1);
}

#[test]
fn surface_format_needs_attachment_capability() {
    let not_capable = FormatSupport {
        format: FORMAT_B8G8R8A8_UNORM,
        color_space: COLOR_SPACE_SRGB_NONLINEAR,
        attachment_capable: false,
    };
    let formats = vec![other_entry(), not_capable];
    let f = choose_surface_format(&formats);
    assert_eq!(f.format, 37);
}

#[test]
fn present_mode_prefers_mailbox() {
    let modes = vec![PRESENT_MODE_FIFO, PRESENT_MODE_MAILBOX];
    assert_eq!(choose_present_mode(&modes), PRESENT_MODE_MAILBOX);
}

#[test]
fn present_mode_falls_back_to_fifo() {
    let modes = vec![PRESENT_MODE_FIFO, 3, 0];
    assert_eq!(choose_present_mode(&modes), PRESENT_MODE_FIFO);
    let none: Vec<u32> = Vec::new();
    assert_eq!(choose_present_mode(&none), PRESENT_MODE_FIFO);
}

#[test]
fn image_count_is_min_plus_one() {
    let caps = caps_with_extents(640, 480, 1, 4096);
    assert_eq!(resolve_image_count(&caps), 3);
}

#[test]
fn image_count_clamps_to_max() {
    let mut caps = caps_with_extents(640, 480, 1, 4096);
    caps.max_image_count = 2;
    assert_eq!(resolve_image_count(&caps), 2);
}

#[test]
fn sharing_mode_by_family_indices() {
    let a = QueueFamily::new(2, 0);
    let b = QueueFamily::new(2, 1);
    let c = QueueFamily::new(5, 0);
    assert_eq!(choose_sharing_mode(a, b), SharingMode::Exclusive);
    assert_eq!(choose_sharing_mode(a, c), SharingMode::Concurrent);
}

#[test]
fn memory_type_lowest_matching_index() {
    // Type filter 0b0110 admits indices 1 and 2; only index 1 carries the
    // requested flags, so it wins.
    let table = vec![
        MemoryType { property_flags: 0 },
        MemoryType { property_flags: 7 },
        MemoryType { property_flags: 1 },
    ];
    assert_eq!(find_memory_type(&table, 0b0110, 6), Some(1));
}

#[test]
fn memory_type_first_of_several_matches() {
    let table = vec![
        MemoryType { property_flags: 6 },
        MemoryType { property_flags: 6 },
    ];
    assert_eq!(find_memory_type(&table, 0b11, 6), Some(0));
    // An index outside the filter is skipped even when its flags match.
    assert_eq!(find_memory_type(&table, 0b10, 6), Some(1));
}

#[test]
fn memory_type_none_when_no_match() {
    let table = vec![MemoryType { property_flags: 1 }, MemoryType { property_flags: 2 }];
    assert_eq!(find_memory_type(&table, 0b11, 4), None);
}

#[test]
fn make_version_packs_fields() {
    assert_eq!(make_version(0, 0, 1, 0), 1 << 12);
    assert_eq!(make_version(0, 1, 1, 0), (1 << 22) | (1 << 12));
    assert_eq!(make_version(1, 2, 3, 4), (1 << 29) | (2 << 22) | (3 << 12) | 4);
}

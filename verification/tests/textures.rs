use kast::image::{checker_texture, get_textures, ImageData, BYTES_PER_PIXEL};
use kast::instance::QueueFamily;

#[test]
fn get_data_size_multiplies_dimensions() {
    let img = ImageData { bytes_per_pixel: 4, width: 4, height: 4, data: vec![0; 64] };
    assert_eq!(img.get_data_size(), 64);
    let img = ImageData { bytes_per_pixel: 4, width: 8, height: 8, data: vec![0; 256] };
    assert_eq!(img.get_data_size(), 256);
}

#[test]
fn get_pixel_returns_the_channel_bytes() {
    let mut data = Vec::new();
    for p in 0..16u8 {
        data.extend_from_slice(&[p, p + 100, 0xAA, 0xFF]);
    }
    let img = ImageData { bytes_per_pixel: 4, width: 4, height: 4, data };
    // Pixel at column 1, row 2 is the ninth pixel in row-major order.
    assert_eq!(img.get_pixel(1, 2), vec![9, 109, 0xAA, 0xFF]);
    assert_eq!(img.get_pixel(0, 0), vec![0, 100, 0xAA, 0xFF]);
    assert_eq!(img.get_pixel(3, 3), vec![15, 115, 0xAA, 0xFF]);
}

#[test]
fn checker_texture_pattern_is_exact() {
    let img = checker_texture(4, 2, 0xA0, 0x55);
    assert_eq!(img.width, 4);
    assert_eq!(img.height, 2);
    assert_eq!(img.bytes_per_pixel, BYTES_PER_PIXEL);
    assert_eq!(img.data.len(), 4 * 2 * 4);
    for y in 0..2usize {
        for x in 0..4usize {
            let base = (y * 4 + x) * 4;
            let expect_x = if x % 2 == 0 { 0xA0 } else { 0xFF };
            let expect_y = if y % 2 == 0 { 0xA0 } else { 0xFF };
            assert_eq!(img.data[base], expect_x);
            assert_eq!(img.data[base + 1], expect_y);
            assert_eq!(img.data[base + 2], 0x55);
            assert_eq!(img.data[base + 3], 0xFF);
        }
    }
}

#[test]
fn demo_textures_have_the_expected_shape() {
    let textures = get_textures();
    assert_eq!(textures.len(), 2);
    assert_eq!(textures[0].width, 4);
    assert_eq!(textures[0].height, 4);
    assert_eq!(textures[0].get_data_size(), 64);
    assert_eq!(textures[1].width, 8);
    assert_eq!(textures[1].height, 8);
    assert_eq!(textures[1].get_data_size(), 256);
    // First texture: dim accent 0xA0 on even columns/rows, blue fixed 0xA0.
    assert_eq!(textures[0].get_pixel(0, 0), vec![0xA0, 0xA0, 0xA0, 0xFF]);
    assert_eq!(textures[0].get_pixel(1, 0), vec![0xFF, 0xA0, 0xA0, 0xFF]);
    assert_eq!(textures[0].get_pixel(0, 1), vec![0xA0, 0xFF, 0xA0, 0xFF]);
    // Second texture: accent 0xC0, blue fully saturated.
    assert_eq!(textures[1].get_pixel(0, 0), vec![0xC0, 0xC0, 0xFF, 0xFF]);
    assert_eq!(textures[1].get_pixel(1, 1), vec![0xFF, 0xFF, 0xFF, 0xFF]);
}

#[test]
fn queue_family_new_keeps_indices() {
    let qf = QueueFamily::new(3, 1);
    assert_eq!(qf.family_index, 3);
    assert_eq!(qf.queue_index, 1);
}

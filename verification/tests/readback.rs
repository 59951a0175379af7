use tiedye::raster::Image;
use tiedye::renderer::output::{
    fits_readback, padded_bytes_per_row, read_image, readback_is_in_bounds, readback_layout,
    strip_row_padding, BufferUsage, ReadbackLayout,
};
use tiedye::renderer::textures::{texture_start, CopyTarget, TextureAspect};
use tiedye::TiedyeError;

#[test]
fn padded_row_is_rounded_up_to_256_bytes() {
    assert_eq!(padded_bytes_per_row(0), 0);
    assert_eq!(padded_bytes_per_row(1), 256);
    assert_eq!(padded_bytes_per_row(63), 256);
    assert_eq!(padded_bytes_per_row(64), 256);
    assert_eq!(padded_bytes_per_row(65), 512);
    assert_eq!(padded_bytes_per_row(512), 2048);
    assert_eq!(padded_bytes_per_row(1000), 4096);
}

#[test]
fn padded_row_at_the_largest_width() {
    let width = (u32::MAX - 255) / 4;
    assert_eq!(padded_bytes_per_row(width), u32::MAX - 255);
}

fn expected_layout(padded_bytes_per_row: u32, buffer_size: u64) -> ReadbackLayout {
    ReadbackLayout {
        padded_bytes_per_row,
        buffer_size,
        usage: BufferUsage { uniform: false, copy_dst: true, map_read: true },
        mapped_at_creation: false,
        offset: 0,
        rows_per_image: None,
        source: CopyTarget {
            mip_level: 0,
            origin_x: 0,
            origin_y: 0,
            origin_z: 0,
            aspect: TextureAspect::All,
        },
    }
}

#[test]
fn readback_layout_of_default_render() {
    assert_eq!(readback_layout(512, 512), expected_layout(2048, 2048 * 512));
    assert_eq!(readback_layout(3, 2), expected_layout(256, 512));
    assert_eq!(readback_layout(3, 2).source, texture_start());
}

#[test]
fn fits_readback_limits() {
    assert!(fits_readback(512, 512));
    assert!(fits_readback(0, u32::MAX));
    assert!(!fits_readback(u32::MAX / 4, 1));
    assert!(fits_readback((u32::MAX - 255) / 4, 1));
    assert!(!fits_readback((u32::MAX - 255) / 4 + 1, 1));
    // 256 bytes per row: at most 2^24 - 1 rows fit in 32 bits.
    assert!(fits_readback(64, (1 << 24) - 1));
    assert!(!fits_readback(64, 1 << 24));
}

#[test]
fn readback_bounds_check() {
    assert!(readback_is_in_bounds(512, 3, 2, 256));
    assert!(readback_is_in_bounds(256 + 12, 3, 2, 256));
    assert!(!readback_is_in_bounds(256 + 11, 3, 2, 256));
    assert!(readback_is_in_bounds(0, 3, 0, 256));
    assert!(!readback_is_in_bounds(usize::MAX, 1 << 16, 1 << 15, 1 << 18));
}

fn padded_buffer(width: usize, height: usize, stride: usize, fill: u8) -> Vec<u8> {
    let mut buffer = vec![fill; stride * height];
    for row in 0..height {
        for col in 0..width * 4 {
            buffer[row * stride + col] = (row * 31 + col) as u8;
        }
    }
    buffer
}

#[test]
fn strip_row_padding_keeps_row_bytes_only() {
    let buffer = padded_buffer(3, 2, 256, 0xee);
    let pixels = strip_row_padding(&buffer, 3, 2, 256);
    let mut expected = Vec::new();
    for row in 0..2usize {
        for col in 0..12usize {
            expected.push((row * 31 + col) as u8);
        }
    }
    assert_eq!(pixels, expected);
}

#[test]
fn strip_row_padding_ignores_padding_bytes() {
    let first = padded_buffer(5, 4, 256, 0x00);
    let second = padded_buffer(5, 4, 256, 0xff);
    assert_ne!(first, second);
    assert_eq!(
        strip_row_padding(&first, 5, 4, 256),
        strip_row_padding(&second, 5, 4, 256)
    );
}

#[test]
fn strip_row_padding_of_unpadded_rows_is_identity() {
    let buffer: Vec<u8> = (0..=255).collect();
    assert_eq!(strip_row_padding(&buffer, 64, 1, 256), buffer);
    assert_eq!(strip_row_padding(&buffer, 16, 4, 64), buffer);
}

#[test]
fn strip_row_padding_of_empty_image() {
    assert!(strip_row_padding(&[], 7, 0, 256).is_empty());
    assert!(strip_row_padding(&[1, 2, 3], 0, 3, 1).is_empty());
}

#[test]
fn read_image_gives_the_rows_of_the_render() {
    let buffer = padded_buffer(2, 3, 256, 0x5a);
    let image = read_image(&buffer, 2, 3, 256).unwrap();
    assert_eq!(image.dimensions(), (2, 3));
    let bytes = image.into_raw();
    assert_eq!(bytes.len(), 2 * 3 * 4);
    assert_eq!(bytes[0..8], buffer[0..8]);
    assert_eq!(bytes[8..16], buffer[256..264]);
    assert_eq!(bytes[16..24], buffer[512..520]);
}

#[test]
fn read_image_of_a_tight_buffer() {
    // The last row needs only its own bytes, not a full stride.
    let buffer = padded_buffer(1, 2, 256, 9);
    let tight = &buffer[..256 + 4];
    let image = read_image(tight, 1, 2, 256).unwrap();
    assert_eq!(image.as_raw(), &[0, 1, 2, 3, 31, 32, 33, 34][..]);
}

#[test]
fn read_image_of_empty_render() {
    let result: Result<Image, TiedyeError> = read_image(&[], 0, 0, 0);
    assert!(matches!(result, Ok(ref image) if image.dimensions() == (0, 0)));
}

#[test]
fn buffer_of_the_planned_size_reads_back_every_row() {
    let layout = readback_layout(70, 3);
    assert_eq!(layout.padded_bytes_per_row, 512);
    assert!(readback_is_in_bounds(layout.buffer_size as usize, 70, 3, 512));
    let buffer = padded_buffer(70, 3, 512, 0xaa);
    assert_eq!(buffer.len() as u64, layout.buffer_size);
    let image = read_image(&buffer, 70, 3, 512).unwrap();
    assert_eq!(image.dimensions(), (70, 3));
    let bytes = image.into_raw();
    for row in 0..3usize {
        assert_eq!(bytes[row * 280..(row + 1) * 280], buffer[row * 512..row * 512 + 280]);
    }
}

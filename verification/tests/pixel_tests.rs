use dicom_inspect::{PixelData, PixelDataDescriptor};

fn layout(rows: u32, columns: u32, bits: u16, samples: u16, photometric: &str) -> PixelDataDescriptor {
    PixelDataDescriptor {
        rows,
        columns,
        bits_allocated: bits,
        bits_stored: bits,
        high_bit: bits.saturating_sub(1),
        photometric_interpretation: photometric.to_string(),
        samples_per_pixel: samples,
        pixel_representation: 0,
    }
}

#[test]
fn total_size_is_the_product_of_the_four_factors() {
    assert_eq!(layout(512, 512, 16, 1, "MONOCHROME2").total_size_bytes(), 524_288);
    assert_eq!(layout(480, 640, 8, 3, "RGB").total_size_bytes(), 921_600);
    assert_eq!(layout(2, 3, 32, 2, "RGB").total_size_bytes(), 48);
    assert_eq!(layout(1, 1, 8, 1, "MONOCHROME1").total_size_bytes(), 1);
}

#[test]
fn total_size_counts_whole_bytes_only() {
    assert_eq!(layout(10, 10, 12, 1, "MONOCHROME2").total_size_bytes(), 100);
    assert_eq!(layout(10, 10, 7, 1, "MONOCHROME2").total_size_bytes(), 0);
    assert_eq!(layout(10, 10, 1, 1, "MONOCHROME2").total_size_bytes(), 0);
    assert_eq!(layout(0, 10, 16, 1, "MONOCHROME2").total_size_bytes(), 0);
    assert_eq!(layout(10, 0, 16, 1, "MONOCHROME2").total_size_bytes(), 0);
    assert_eq!(layout(10, 10, 16, 0, "MONOCHROME2").total_size_bytes(), 0);
}

#[test]
fn size_fits_tells_when_the_size_is_a_usize() {
    assert!(layout(512, 512, 16, 1, "MONOCHROME2").size_fits());
    assert!(layout(u32::MAX, u32::MAX, 0, u16::MAX, "RGB").size_fits());
    let huge = layout(u32::MAX, u32::MAX, u16::MAX, u16::MAX, "RGB");
    let exact: u128 = (u32::MAX as u128) * (u32::MAX as u128) * 8191 * 65535;
    assert_eq!(huge.size_fits(), exact <= usize::MAX as u128);
    let large = layout(65_536, 65_536, 8, 1, "MONOCHROME2");
    assert_eq!(large.size_fits(), (1u128 << 32) <= usize::MAX as u128);
    if large.size_fits() {
        assert_eq!(large.total_size_bytes() as u128, 1u128 << 32);
    }
}

#[test]
fn monochrome_is_a_prefix_test() {
    assert!(layout(1, 1, 8, 1, "MONOCHROME1").is_monochrome());
    assert!(layout(1, 1, 8, 1, "MONOCHROME2").is_monochrome());
    assert!(layout(1, 1, 8, 1, "MONOCHROME").is_monochrome());
    assert!(layout(1, 1, 8, 1, "MONOCHROMEé").is_monochrome());
    assert!(!layout(1, 1, 8, 1, "MONOCHROM").is_monochrome());
    assert!(!layout(1, 1, 8, 1, "monochrome2").is_monochrome());
    assert!(!layout(1, 1, 8, 1, " MONOCHROME2").is_monochrome());
    assert!(!layout(1, 1, 8, 1, "RGB").is_monochrome());
    assert!(!layout(1, 1, 8, 1, "").is_monochrome());
}

#[test]
fn rgb_is_an_exact_match() {
    assert!(layout(1, 1, 8, 3, "RGB").is_rgb());
    assert!(!layout(1, 1, 8, 3, "rgb").is_rgb());
    assert!(!layout(1, 1, 8, 3, "RGB ").is_rgb());
    assert!(!layout(1, 1, 8, 3, "RGBA").is_rgb());
    assert!(!layout(1, 1, 8, 3, "RG").is_rgb());
    assert!(!layout(1, 1, 8, 3, "YBR_FULL").is_rgb());
    assert!(!layout(1, 1, 8, 3, "PALETTE COLOR").is_rgb());
    assert!(!layout(1, 1, 8, 3, "").is_rgb());
    assert!(!layout(1, 1, 8, 1, "MONOCHROME2").is_rgb());
}

#[test]
fn new_buffer_is_zeroed_and_sized_by_the_descriptor() {
    let descriptor = layout(4, 6, 16, 1, "MONOCHROME2");
    let pixels = PixelData::new(descriptor.clone());
    assert_eq!(pixels.descriptor, descriptor);
    assert_eq!(pixels.data.len(), 48);
    assert!(pixels.data.iter().all(|b| *b == 0));
    assert_eq!(pixels.get_pixel(0, 0), Some(0));
    assert_eq!(pixels.get_pixel(5, 3), Some(0));

    let empty = PixelData::new(layout(0, 0, 8, 1, "MONOCHROME2"));
    assert!(empty.data.is_empty());
}

#[test]
fn get_pixel_reads_two_byte_samples_little_endian() {
    let mut pixels = PixelData::new(layout(2, 3, 16, 1, "MONOCHROME2"));
    for (i, byte) in pixels.data.iter_mut().enumerate() {
        *byte = i as u8 + 1;
    }
    // Row 0: (1,2) (3,4) (5,6); row 1: (7,8) (9,10) (11,12).
    assert_eq!(pixels.get_pixel(0, 0), Some(0x0201));
    assert_eq!(pixels.get_pixel(1, 0), Some(0x0403));
    assert_eq!(pixels.get_pixel(2, 0), Some(0x0605));
    assert_eq!(pixels.get_pixel(0, 1), Some(0x0807));
    assert_eq!(pixels.get_pixel(2, 1), Some(0x0C0B));
    pixels.data[10] = 0xFF;
    pixels.data[11] = 0xFF;
    assert_eq!(pixels.get_pixel(2, 1), Some(0xFFFF));
}

#[test]
fn get_pixel_reads_one_byte_samples() {
    let mut pixels = PixelData::new(layout(2, 2, 8, 1, "MONOCHROME2"));
    pixels.data.copy_from_slice(&[10, 20, 30, 255]);
    assert_eq!(pixels.get_pixel(0, 0), Some(10));
    assert_eq!(pixels.get_pixel(1, 0), Some(20));
    assert_eq!(pixels.get_pixel(0, 1), Some(30));
    assert_eq!(pixels.get_pixel(1, 1), Some(255));
}

#[test]
fn get_pixel_reads_the_first_byte_of_wider_samples() {
    let mut pixels = PixelData::new(layout(1, 2, 32, 1, "MONOCHROME2"));
    pixels.data.copy_from_slice(&[1, 2, 3, 4, 5, 6, 7, 8]);
    assert_eq!(pixels.get_pixel(0, 0), Some(1));
    assert_eq!(pixels.get_pixel(1, 0), Some(5));
}

#[test]
fn get_pixel_outside_the_image_is_none() {
    let pixels = PixelData::new(layout(2, 3, 16, 1, "MONOCHROME2"));
    assert_eq!(pixels.get_pixel(3, 0), None);
    assert_eq!(pixels.get_pixel(0, 2), None);
    assert_eq!(pixels.get_pixel(u32::MAX, u32::MAX), None);
}

#[test]
fn get_pixel_beyond_a_short_buffer_is_none() {
    let mut pixels = PixelData::new(layout(2, 2, 16, 1, "MONOCHROME2"));
    pixels.data.truncate(7);
    assert_eq!(pixels.get_pixel(0, 1), Some(0));
    assert_eq!(pixels.get_pixel(1, 1), None);
    pixels.data.clear();
    assert_eq!(pixels.get_pixel(0, 0), None);

    // Samples of less than a byte leave nothing to read in an empty buffer.
    let bits = PixelData::new(layout(2, 2, 1, 1, "MONOCHROME2"));
    assert!(bits.data.is_empty());
    assert_eq!(bits.get_pixel(0, 0), None);
}

#[test]
fn get_pixel_far_into_a_wide_image_does_not_wrap() {
    let descriptor = layout(70_000, 70_000, 8, 1, "MONOCHROME2");
    let pixels = PixelData { descriptor, data: vec![7u8; 16] };
    assert_eq!(pixels.get_pixel(3, 0), Some(7));
    // 61_356 * 70_000 + 47_299 is 2^32 + 3: far past the buffer, not offset 3.
    assert_eq!(pixels.get_pixel(47_299, 61_356), None);
    assert_eq!(pixels.get_pixel(69_999, 69_999), None);
}

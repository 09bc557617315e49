use pbr_pipeline::convert::rgb8_to_rgba8;
use pbr_pipeline::convert::rgb_words_to_rgba_words;
use pbr_pipeline::convert::row_stride;

#[test]
fn rgb_bytes_gain_constant_alpha() {
    let rgb = vec![10u8, 20, 30, 40, 50, 60];
    let rgba = rgb8_to_rgba8(&rgb, 255);
    assert_eq!(rgba, vec![10, 20, 30, 255, 40, 50, 60, 255]);
}

#[test]
fn empty_rgb_stays_empty() {
    let rgb: Vec<u8> = Vec::new();
    let rgba = rgb8_to_rgba8(&rgb, 255);
    assert!(rgba.is_empty());
}

#[test]
fn hdr_words_gain_unit_alpha() {
    let one = 1.0f32.to_bits();
    let rgb = vec![0.5f32.to_bits(), 0.25f32.to_bits(), 2.0f32.to_bits()];
    let rgba = rgb_words_to_rgba_words(&rgb, one);
    assert_eq!(
        rgba,
        vec![0.5f32.to_bits(), 0.25f32.to_bits(), 2.0f32.to_bits(), one]
    );
    assert_eq!(f32::from_bits(rgba[3]), 1.0);
}

#[test]
fn row_stride_accepts_exact_data() {
    // A 4x2 RGBA byte image.
    assert_eq!(row_stride(4, 2, 4, 32), Some(16));
    // A 512x256 HDR image of 16-byte pixels.
    assert_eq!(row_stride(512, 256, 16, 512 * 256 * 16), Some(512 * 16));
}

#[test]
fn row_stride_rejects_mismatched_data() {
    assert_eq!(row_stride(4, 2, 4, 31), None);
    assert_eq!(row_stride(4, 2, 4, 33), None);
    assert_eq!(row_stride(0, 2, 4, 1), None);
}

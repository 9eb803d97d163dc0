use wallclock::alphablend::alphablend_x8;
use wallclock::alphablend::AlignedRgbaImage;

#[test]
fn x8_blends_first_eight_pixels() {
    let mut src = vec![0u8; 40];
    let mut dst = vec![0u8; 40];
    for p in 0..10 {
        src[4 * p..4 * p + 4].copy_from_slice(&[200, 100, 50, 128]);
        dst[4 * p..4 * p + 4].copy_from_slice(&[10, 20, 30, 255]);
    }
    alphablend_x8(&src, &mut dst);
    for p in 0..8 {
        assert_eq!(&dst[4 * p..4 * p + 4], &[105, 60, 40, 191]);
    }
    for p in 8..10 {
        assert_eq!(&dst[4 * p..4 * p + 4], &[10, 20, 30, 255]);
    }
}

#[test]
fn x8_leaves_dst_for_transparent_source() {
    let src = vec![77u8, 77, 77, 0].repeat(8);
    let mut dst: Vec<u8> = (0..32).collect();
    let before = dst.clone();
    alphablend_x8(&src, &mut dst);
    assert_eq!(dst, before);
}

#[test]
fn rgba_image_swaps_every_pixel() {
    let rgba: Vec<u8> = [1u8, 2, 3, 4].repeat(3 * 3);
    let img = AlignedRgbaImage::from_rgba8(3, 3, &rgba);
    let bytes = img.as_bytes();
    assert_eq!(bytes, &[3u8, 2, 1, 4].repeat(3 * 3)[..]);
    assert_eq!(img.pixel(2, 2), [3, 2, 1, 4]);
    assert_eq!(img.pixel(0, 0), [3, 2, 1, 4]);
    let one = AlignedRgbaImage::from_rgba8(1, 1, &[1, 2, 3, 4]);
    assert_eq!(one.as_bytes(), &[3, 2, 1, 4]);
}

#[test]
fn rgba_image_pixels() {
    let mut img = AlignedRgbaImage::new(3, 2);
    assert_eq!(img.width(), 3);
    assert_eq!(img.height(), 2);
    img.set_pixel(2, 1, [9, 8, 7, 6]);
    assert_eq!(img.pixel(2, 1), [9, 8, 7, 6]);
    assert!(img.blend_pixel_checked(1, 1, [1, 1, 1, 255]));
    assert_eq!(img.pixel(1, 1), [1, 1, 1, 255]);
    assert!(!img.blend_pixel_checked(3, 0, [1, 1, 1, 255]));
}

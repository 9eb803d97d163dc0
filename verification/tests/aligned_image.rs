use wallclock::aligned_image::AlignedImage;

fn image_with(width: u32, height: u32, f: impl Fn(u32, u32) -> [u8; 4]) -> AlignedImage {
    let mut img = AlignedImage::new(width, height);
    for y in 0..height {
        for x in 0..width {
            img.set_pixel(x, y, f(x, y));
        }
    }
    img
}

#[test]
fn new_image_is_zeroed() {
    let img = AlignedImage::new(16, 3);
    assert_eq!(img.width(), 16);
    assert_eq!(img.height(), 3);
    assert_eq!(img.stride(), 64);
    assert_eq!(img.as_bytes().len(), 16 * 3 * 4);
    assert!(img.as_bytes().iter().all(|&b| b == 0));
}

#[test]
fn set_then_read_pixel() {
    let mut img = AlignedImage::new(16, 2);
    img.set_pixel(5, 1, [1, 2, 3, 4]);
    assert_eq!(img.pixel(5, 1), [1, 2, 3, 4]);
    assert_eq!(img.pixel(4, 1), [0, 0, 0, 0]);
    assert_eq!(img.pixel(5, 0), [0, 0, 0, 0]);
    let offset = (16 + 5) * 4;
    assert_eq!(&img.as_bytes()[offset..offset + 4], &[1, 2, 3, 4]);
}

#[test]
fn blend_pixel_with_opaque_and_clear_colours() {
    let mut img = image_with(16, 1, |_, _| [10, 20, 30, 255]);
    img.blend_pixel(3, 0, [200, 100, 50, 255]);
    assert_eq!(img.pixel(3, 0), [200, 100, 50, 255]);
    img.blend_pixel(4, 0, [200, 100, 50, 0]);
    assert_eq!(img.pixel(4, 0), [10, 20, 30, 255]);
    img.blend_pixel(5, 0, [255, 255, 255, 128]);
    let p = img.pixel(5, 0);
    assert!(p[0] > 100 && p[0] < 160);
}

#[test]
fn blend_pixel_checked_outside_does_nothing() {
    let mut img = image_with(16, 2, |x, y| [x as u8, y as u8, 0, 255]);
    let before = img.as_bytes().to_vec();
    assert!(!img.blend_pixel_checked(16, 0, [9, 9, 9, 255]));
    assert!(!img.blend_pixel_checked(0, 2, [9, 9, 9, 255]));
    assert_eq!(img.as_bytes(), &before[..]);
    assert!(img.blend_pixel_checked(15, 1, [9, 9, 9, 255]));
    assert_eq!(img.pixel(15, 1), [9, 9, 9, 255]);
}

#[test]
fn from_rgba8_swaps_red_and_blue() {
    let mut rgba = Vec::new();
    for i in 0..16u8 {
        rgba.extend_from_slice(&[i, 100, 200, 255]);
    }
    let img = AlignedImage::from_rgba8(16, 1, &rgba);
    for x in 0..16u32 {
        assert_eq!(img.pixel(x, 0), [200, 100, x as u8, 255]);
    }
}

#[test]
fn copy_clear_and_fade() {
    let src = image_with(16, 2, |x, _| [x as u8, 50, 100, 7]);
    let mut dst = AlignedImage::new(16, 2);
    dst.copy_from(&src);
    assert_eq!(dst.as_bytes(), src.as_bytes());
    dst.fade_from(&src, 0);
    assert_eq!(dst.pixel(3, 1), [0, 0, 0, 255]);
    dst.fade_from(&src, 255);
    assert_eq!(dst.pixel(3, 1), [3, 50, 100, 255]);
    dst.clear();
    assert!(dst.as_bytes().iter().all(|&b| b == 0));
}

#[test]
fn buffers_are_aligned() {
    let img = AlignedImage::new(32, 3);
    assert_eq!(img.alignment(), 128);
    assert_eq!(img.as_bytes().as_ptr() as usize % 64, 0);
    let rgba = AlignedImage::from_rgba8(16, 1, &[7u8; 64]);
    assert_eq!(rgba.as_bytes().as_ptr() as usize % 64, 0);
}

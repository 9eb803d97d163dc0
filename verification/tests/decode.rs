use image::codecs::webp::WebPEncoder;
use image::ExtendedColorType;
use wallclock::aligned_image::AlignedImage;
use wallclock::alphablend::AlignedRgbaImage;
use wallclock::decode::DecodeError;

fn webp(width: u32, height: u32, f: impl Fn(u32, u32) -> [u8; 4]) -> Vec<u8> {
    let mut rgba = Vec::new();
    for y in 0..height {
        for x in 0..width {
            rgba.extend_from_slice(&f(x, y));
        }
    }
    let mut out = Vec::new();
    WebPEncoder::new_lossless(&mut out)
        .encode(&rgba, width, height, ExtendedColorType::Rgba8)
        .unwrap();
    out
}

#[test]
fn decode_swaps_channels() {
    let bytes = webp(16, 2, |x, y| [x as u8, y as u8 * 50, 200, 255]);
    let img = AlignedImage::decode(&bytes).unwrap();
    assert_eq!(img.width(), 16);
    assert_eq!(img.height(), 2);
    assert_eq!(img.pixel(3, 1), [200, 50, 3, 255]);
}

#[test]
fn decode_rejects_garbage_and_odd_widths() {
    assert!(matches!(AlignedImage::decode(&[1, 2, 3, 4]), Err(DecodeError::Image(_))));
    let bytes = webp(17, 1, |_, _| [0, 0, 0, 255]);
    assert!(matches!(AlignedImage::decode(&bytes), Err(DecodeError::BadWidth(17))));
}

#[test]
fn decode_to_fill_resizes() {
    let bytes = webp(64, 64, |_, _| [10, 20, 30, 255]);
    let img = AlignedImage::decode_to_fill(&bytes, 32, 8).unwrap();
    assert_eq!(img.width(), 32);
    assert_eq!(img.height(), 8);
    let p = img.pixel(5, 5);
    assert_eq!(p[3], 255);
    assert!((p[0] as i32 - 30).abs() <= 1 && (p[2] as i32 - 10).abs() <= 1);
    assert!(matches!(AlignedImage::decode_to_fill(&bytes, 0, 8), Err(DecodeError::Empty)));
    assert!(matches!(AlignedImage::decode_to_fill(&bytes, 20, 8), Err(DecodeError::BadWidth(20))));
    assert!(matches!(AlignedImage::decode_to_fill(&[0; 8], 32, 8), Err(DecodeError::Image(_))));
}

#[test]
fn rgba_decode_keeps_any_width() {
    let bytes = webp(9, 1, |x, _| [x as u8, 7, 9, 255]);
    let img = AlignedRgbaImage::decode(&bytes).unwrap();
    assert_eq!(img.width(), 9);
    assert_eq!(img.height(), 1);
    assert_eq!(img.pixel(1, 0), [9, 7, 1, 255]);
    assert_eq!(img.pixel(8, 0), [9, 7, 8, 255]);
    assert!(matches!(AlignedRgbaImage::decode(&[9, 9, 9]), Err(DecodeError::Image(_))));
}

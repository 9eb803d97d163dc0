use wallclock::aligned_image::AlignedImage;
use wallclock::balbird::BalbirdData;
use wallclock::display::copy_image_with_alpha;
use wallclock::display::draw_image;
use wallclock::display::fill_rect;
use wallclock::display::fill_rect_aligned;
use wallclock::display::fill_rect_scalar;
use wallclock::display::frame_step;
use wallclock::display::glyph_position;
use wallclock::display::health_label;
use wallclock::display::saturating_u8;
use wallclock::display::with_commas;
use wallclock::display::TextAnchor;

fn image_with(width: u32, height: u32, f: impl Fn(u32, u32) -> [u8; 4]) -> AlignedImage {
    let mut img = AlignedImage::new(width, height);
    for y in 0..height {
        for x in 0..width {
            img.set_pixel(x, y, f(x, y));
        }
    }
    img
}

const BASE: [u8; 4] = [10, 20, 30, 255];
const SHADE: [u8; 4] = [0, 0, 0, 180];

#[test]
fn fill_rect_blends_blocks_and_edges() {
    let mut img = image_with(48, 3, |_, _| BASE);
    fill_rect(&mut img, 40, 2, 3, 0, SHADE);
    let mut probe = image_with(16, 1, |_, _| BASE);
    probe.blend_pixel(0, 0, SHADE);
    let composite = probe.pixel(0, 0);
    let fixed = [(10 * 75 / 255) as u8, (20 * 75 / 255) as u8, (30 * 75 / 255) as u8, 255];
    for y in 0..3 {
        for x in 0..48 {
            let expected = if y < 2 && (3..40).contains(&x) {
                if (16..32).contains(&x) { fixed } else { composite }
            } else {
                BASE
            };
            assert_eq!(img.pixel(x, y), expected, "({x}, {y})");
        }
    }
}

#[test]
fn fill_rect_corner_order_does_not_matter() {
    let a = image_with(32, 4, |x, y| [x as u8, y as u8, 7, 200]);
    let mut b = image_with(32, 4, |x, y| [x as u8, y as u8, 7, 200]);
    let mut c = image_with(32, 4, |x, y| [x as u8, y as u8, 7, 200]);
    fill_rect(&mut b, 1, 1, 30, 3, [90, 80, 70, 60]);
    fill_rect(&mut c, 30, 3, 1, 1, [90, 80, 70, 60]);
    assert_eq!(b.as_bytes(), c.as_bytes());
    assert_ne!(a.as_bytes(), b.as_bytes());
}

#[test]
fn fill_rect_clips_and_ignores_empty() {
    let mut img = image_with(16, 2, |_, _| BASE);
    fill_rect(&mut img, 100, 100, 200, 200, SHADE);
    fill_rect(&mut img, 5, 0, 5, 2, SHADE);
    fill_rect(&mut img, 0, 1, 16, 1, SHADE);
    assert!((0..16).all(|x| img.pixel(x, 0) == BASE && img.pixel(x, 1) == BASE));
    fill_rect(&mut img, 0, 0, 1000, 1000, [1, 2, 3, 255]);
    assert!((0..16).all(|x| img.pixel(x, 0) == [1, 2, 3, 255] && img.pixel(x, 1) == [1, 2, 3, 255]));
}

#[test]
fn fill_rect_parts() {
    let mut a = image_with(32, 2, |_, _| [10, 20, 30, 40]);
    fill_rect_aligned(&mut a, 16, 0, 32, 1, [200, 100, 50, 128]);
    assert_eq!(a.pixel(20, 0), [105, 60, 40, 255]);
    assert_eq!(a.pixel(15, 0), [10, 20, 30, 40]);
    assert_eq!(a.pixel(20, 1), [10, 20, 30, 40]);
    let mut b = image_with(32, 2, |_, _| [10, 20, 30, 40]);
    fill_rect_scalar(&mut b, 2, 1, 4, 2, [1, 2, 3, 255]);
    assert_eq!(b.pixel(2, 1), [1, 2, 3, 255]);
    assert_eq!(b.pixel(4, 1), [10, 20, 30, 40]);
}

#[test]
fn draw_image_skips_transparent_blocks() {
    let mut dst = image_with(32, 4, |_, _| [10, 20, 30, 40]);
    let src = image_with(16, 2, |x, y| {
        if y == 0 {
            [99, 99, 99, 0]
        } else if x < 8 {
            [x as u8, 1, 2, 255]
        } else {
            [5, 5, 5, 0]
        }
    });
    draw_image(&mut dst, 16, 1, &src);
    for y in 0..4 {
        for x in 0..32 {
            let expected = if y == 2 && x >= 16 {
                if x < 24 { [(x - 16) as u8, 1, 2, 255] } else { [10, 20, 30, 255] }
            } else {
                [10, 20, 30, 40]
            };
            assert_eq!(dst.pixel(x, y), expected, "({x}, {y})");
        }
    }
}

#[test]
fn copy_with_alpha_scales_colours() {
    let src = image_with(16, 1, |x, _| [x as u8 * 10, 255, 0, 3]);
    let mut dst = AlignedImage::new(16, 1);
    copy_image_with_alpha(&src, &mut dst, 128);
    for x in 0..16u32 {
        let v = (x * 10 * 128 / 255) as u8;
        assert_eq!(dst.pixel(x, 0), [v, 128, 0, 255]);
    }
    copy_image_with_alpha(&src, &mut dst, 255);
    assert_eq!(dst.pixel(4, 0), [40, 255, 0, 255]);
}

#[test]
fn glyph_positions() {
    assert_eq!(glyph_position(TextAnchor::TopLeft, 100, 50, 20, 10, 3, 4), Some((103, 54)));
    assert_eq!(glyph_position(TextAnchor::TopCenter, 100, 50, 21, 10, 3, 4), Some((93, 54)));
    assert_eq!(glyph_position(TextAnchor::BottomCenter, 100, 50, 20, 10, 3, 4), Some((93, 44)));
    assert_eq!(glyph_position(TextAnchor::BottomRight, 100, 50, 20, 10, 3, 4), Some((83, 44)));
    assert_eq!(glyph_position(TextAnchor::BottomLeft, 100, 50, 20, 10, 3, 4), Some((103, 44)));
    assert_eq!(glyph_position(TextAnchor::TopRight, 5, 50, 20, 10, 0, 0), None);
    assert_eq!(glyph_position(TextAnchor::BottomLeft, 5, 5, 20, 10, 0, 0), None);
    assert_eq!(glyph_position(TextAnchor::TopLeft, 0x8000_0000, 0, 0, 0, 0, 0), None);
}

#[test]
fn health_labels() {
    assert_eq!(health_label(Some(&BalbirdData { is_healthy: true })), "HEALTHY");
    assert_eq!(health_label(Some(&BalbirdData { is_healthy: false })), "STALE");
    assert_eq!(health_label(None), "OFFLINE");
}

#[test]
fn saturating_cast() {
    assert_eq!(saturating_u8(-5), 0);
    assert_eq!(saturating_u8(300), 255);
    assert_eq!(saturating_u8(77), 77);
    assert_eq!(saturating_u8(255), 255);
}

#[test]
fn frame_steps() {
    let s = frame_step(10, 0, 500, None);
    assert!(s.advance_wallpaper);
    assert_eq!(s.draw_alpha, Some(127));
    assert_eq!(s.last_second, Some(0));
    let s2 = frame_step(10, 0, 600, s.last_second);
    assert!(!s2.advance_wallpaper);
    assert_eq!(s2.draw_alpha, Some(153));

    let e = frame_step(14, 59, 0, Some(58));
    assert!(!e.advance_wallpaper);
    assert_eq!(e.draw_alpha, Some(255));
    assert_eq!(frame_step(14, 59, 999, Some(59)).draw_alpha, Some(1));

    let q = frame_step(3, 10, 100, Some(10));
    assert_eq!(q.draw_alpha, None);
    assert_eq!(q.last_second, Some(10));
    let d = frame_step(3, 10, 100, Some(9));
    assert_eq!(d.draw_alpha, Some(255));
    assert_eq!(d.last_second, Some(10));
    assert!(!d.advance_wallpaper);
}

#[test]
fn thousands_separators() {
    assert_eq!(with_commas(0), "0");
    assert_eq!(with_commas(7), "7");
    assert_eq!(with_commas(999), "999");
    assert_eq!(with_commas(1000), "1,000");
    assert_eq!(with_commas(1013), "1,013");
    assert_eq!(with_commas(1_000_005), "1,000,005");
    assert_eq!(with_commas(1_234_567), "1,234,567");
    assert_eq!(with_commas(-1234), "-1,234");
    assert_eq!(with_commas(-12), "-12");
    assert_eq!(with_commas(i32::MIN), "-2,147,483,648");
    assert_eq!(with_commas(i32::MAX), "2,147,483,647");
}

#[test]
fn fill_rect_blends_within_one_unit() {
    let mut img = image_with(48, 2, |x, y| [(x * 5) as u8, (y * 90 + 7) as u8, 250 - x as u8, 255]);
    let before = image_with(48, 2, |x, y| [(x * 5) as u8, (y * 90 + 7) as u8, 250 - x as u8, 255]);
    for alpha in [1u8, 77, 128, 180, 254] {
        let color = [200u8, 13, 99, alpha];
        let mut img2 = image_with(48, 2, |x, y| [(x * 5) as u8, (y * 90 + 7) as u8, 250 - x as u8, 255]);
        fill_rect(&mut img2, 3, 0, 45, 2, color);
        for y in 0..2 {
            for x in 3..45 {
                let old = before.pixel(x, y);
                let new = img2.pixel(x, y);
                for k in 0..3 {
                    let exact = (color[k] as i32 * alpha as i32 + old[k] as i32 * (255 - alpha as i32)) / 255;
                    assert!((new[k] as i32 - exact).abs() <= 1, "x={x} k={k} alpha={alpha}");
                }
            }
        }
    }
    fill_rect(&mut img, 0, 0, 0, 0, [1, 2, 3, 4]);
    assert_eq!(img.as_bytes(), before.as_bytes());
}

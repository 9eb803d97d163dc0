use wallclock::pixel::blend_channel;
use wallclock::pixel::blend_opaque;
use wallclock::pixel::blend_src_over_dst;
use wallclock::pixel::div_255;
use wallclock::pixel::fade_pixel;
use wallclock::pixel::scale_channel;
use wallclock::pixel::swap_red_blue;
use wallclock::pixel::fade_into;

#[test]
fn div_255_is_floor_division() {
    for x in 0u16..65280 {
        assert_eq!(div_255(x), x / 255, "x = {x}");
    }
}

#[test]
fn blend_channel_values() {
    assert_eq!(blend_channel(200, 10, 128), 105);
    assert_eq!(blend_channel(100, 20, 128), 60);
    assert_eq!(blend_channel(50, 30, 128), 40);
    for s in 0..=255u8 {
        for d in [0u8, 7, 128, 255] {
            assert_eq!(blend_channel(s, d, 255), s);
            assert_eq!(blend_channel(s, d, 0), d);
            let b = blend_channel(s, d, 77);
            assert!(b >= s.min(d) && b <= s.max(d));
        }
    }
}

#[test]
fn blend_pixel_values() {
    let src = [200, 100, 50, 128];
    let dst = [10, 20, 30, 255];
    assert_eq!(blend_src_over_dst(src, dst), [105, 60, 40, 191]);
    assert_eq!(blend_opaque(src, dst), [105, 60, 40, 255]);
    assert_eq!(blend_opaque([1, 2, 3, 255], dst), [1, 2, 3, 255]);
    assert_eq!(blend_opaque([1, 2, 3, 0], [9, 8, 7, 6]), [9, 8, 7, 255]);
}

#[test]
fn scale_and_fade() {
    assert_eq!(scale_channel(200, 255), 200);
    assert_eq!(scale_channel(200, 0), 0);
    assert_eq!(scale_channel(200, 128), (200 * 128 / 255) as u8);
    assert_eq!(fade_pixel([10, 20, 30, 40], 255), [10, 20, 30, 255]);
    assert_eq!(fade_pixel([10, 20, 30, 40], 0), [0, 0, 0, 255]);
}

#[test]
fn swap_red_blue_prefix_and_involution() {
    let orig: Vec<u8> = (0..16).collect();
    let mut v = orig.clone();
    swap_red_blue(&mut v, 8);
    assert_eq!(v, vec![2, 1, 0, 3, 6, 5, 4, 7, 8, 9, 10, 11, 12, 13, 14, 15]);
    swap_red_blue(&mut v, 8);
    assert_eq!(v, orig);
}

#[test]
fn fade_into_bytes() {
    let src = vec![10u8, 20, 30, 0, 255, 255, 255, 7];
    let mut dst = vec![0u8; 8];
    fade_into(&src, &mut dst, 255);
    assert_eq!(dst, vec![10, 20, 30, 255, 255, 255, 255, 255]);
    fade_into(&src, &mut dst, 0);
    assert_eq!(dst, vec![0, 0, 0, 255, 0, 0, 0, 255]);
}

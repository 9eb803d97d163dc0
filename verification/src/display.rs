use vstd::prelude::*;

use crate::aligned_image::AlignedImage;
use crate::aligned_image::ImageModel;
use crate::aligned_image::in_bounds;
use crate::aligned_image::pixel_at;
use crate::aligned_image::image_wf;
use crate::aligned_image::lemma_index_bounds;
use crate::pixel::lemma_blend_opaque_of_opaque_source;
use crate::pixel::blend_opaque;
use crate::pixel::blend_opaque_spec;
use crate::pixel::blend_rgba;
use crate::pixel::rgba_blend;
use crate::pixel::fade_bytes;
use crate::pixel::near_blend;
use crate::pixel::lemma_blend_sum_bound;
use crate::balbird::BalbirdData;
use crate::text::digit_char;
use crate::text::decimal;
use crate::text::digit_str;
use crate::text::decimal_string;
use crate::text::all_digits;
use crate::text::lemma_decimal_spells;

verus! {

#[derive(Clone, Copy)]
/// How a rectangle fill combines its colour with each pixel.
pub enum BlendMode {
    /// `image::Rgba::blend`, all four channels.
    Composite,
    /// The 16-bit fixed-point source-over blend of the colour channels; the
    /// result is fully opaque.
    FixedPoint,
}

/// The pixel that a fill of `color` in mode `mode` makes of `old`.
pub open spec fn apply_mode(mode: BlendMode, color: Seq<u8>, old: Seq<u8>) -> Seq<u8> {
    match mode {
        BlendMode::Composite => rgba_blend(old, color),
        BlendMode::FixedPoint => blend_opaque_spec(color, old),
    }
}

/// Pixel `(x, y)` of `m` after the rectangle `[l, r) x [t, b)` is filled.
pub open spec fn rect_pixel(
    m: ImageModel,
    l: int,
    t: int,
    r: int,
    b: int,
    mode: BlendMode,
    color: Seq<u8>,
    x: int,
    y: int,
) -> Seq<u8> {
    if l <= x < r && t <= y < b {
        apply_mode(mode, color, pixel_at(m, x, y))
    } else {
        pixel_at(m, x, y)
    }
}

/// Every pixel of `[l, r) x [t, b)` that was fully opaque in `old` is, in
/// `new`, within one unit per colour channel of the 8-bit source-over blend of
/// `color` over it.
pub open spec fn rect_near(
    old: ImageModel,
    new: ImageModel,
    l: int,
    t: int,
    r: int,
    b: int,
    color: Seq<u8>,
) -> bool {
    forall|x: int, y: int|
        in_bounds(old, x, y) && l <= x < r && t <= y < b && (#[trigger] pixel_at(old, x, y))[3]
            == 255 ==> near_blend(color, pixel_at(old, x, y), pixel_at(new, x, y))
}

/// Blends `color` into every pixel of `[l, r) x [t, b)`, row by row.
fn blend_rect(dst: &mut AlignedImage, l: u32, t: u32, r: u32, b: u32, color: [u8; 4], mode: BlendMode)
    requires
        l <= r <= old(dst)@.width,
        t <= b <= old(dst)@.height,
    ensures
        final(dst)@.width == old(dst)@.width,
        final(dst)@.height == old(dst)@.height,
        forall|x: int, y: int|
            in_bounds(old(dst)@, x, y) ==> #[trigger] pixel_at(final(dst)@, x, y) == rect_pixel(
                old(dst)@,
                l as int,
                t as int,
                r as int,
                b as int,
                mode,
                color@,
                x,
                y,
            ),
        rect_near(old(dst)@, final(dst)@, l as int, t as int, r as int, b as int, color@),
{
    let ghost orig = dst@;
    let mut y = t;
    while y < b
        invariant
            dst@.width == orig.width,
            dst@.height == orig.height,
            l <= r <= orig.width,
            t <= y <= b <= orig.height,
            forall|x2: int, y2: int|
                in_bounds(orig, x2, y2) ==> #[trigger] pixel_at(dst@, x2, y2) == rect_pixel(
                    orig,
                    l as int,
                    t as int,
                    r as int,
                    y as int,
                    mode,
                    color@,
                    x2,
                    y2,
                ),
            rect_near(orig, dst@, l as int, t as int, r as int, y as int, color@),
        decreases b - y,
    {
        let mut x = l;
        while x < r
            invariant
                dst@.width == orig.width,
                dst@.height == orig.height,
                l <= x <= r <= orig.width,
                t <= y < b <= orig.height,
                forall|x2: int, y2: int|
                    in_bounds(orig, x2, y2) ==> #[trigger] pixel_at(dst@, x2, y2) == (if l <= x2
                        < r && (t <= y2 < y || (y2 == y && x2 < x)) {
                        apply_mode(mode, color@, pixel_at(orig, x2, y2))
                    } else {
                        pixel_at(orig, x2, y2)
                    }),
                forall|x2: int, y2: int|
                    in_bounds(orig, x2, y2) && l <= x2 < r && (t <= y2 < y || (y2 == y && x2 < x))
                        && (#[trigger] pixel_at(orig, x2, y2))[3] == 255 ==> near_blend(
                        color@,
                        pixel_at(orig, x2, y2),
                        pixel_at(dst@, x2, y2),
                    ),
            decreases r - x,
        {
            let ghost before = dst@;
            let p = dst.pixel(x, y);
            let q = match mode {
                BlendMode::Composite => blend_rgba(p, color),
                BlendMode::FixedPoint => blend_opaque(color, p),
            };
            proof {
                if p[3] == 255 {
                    assert(near_blend(color@, p@, q@));
                }
            }
            dst.set_pixel(x, y, q);
            proof {
                assert forall|x2: int, y2: int|
                    in_bounds(orig, x2, y2) && l <= x2 < r && (t <= y2 < y || (y2 == y && x2 < x
                        + 1)) && (#[trigger] pixel_at(orig, x2, y2))[3] == 255 implies near_blend(
                    color@,
                    pixel_at(orig, x2, y2),
                    pixel_at(dst@, x2, y2),
                ) by {
                    if !(x2 == x && y2 == y) {
                        assert(pixel_at(dst@, x2, y2) == pixel_at(before, x2, y2));
                    }
                }
            }
            x = x + 1;
        }
        y = y + 1;
    }
}

/// Blends `color` into `[l, r) x [t, b)` with `image::Rgba::blend`, pixel by pixel.
pub fn fill_rect_scalar(dst: &mut AlignedImage, l: u32, t: u32, r: u32, b: u32, color: [u8; 4])
    requires
        l <= r <= old(dst)@.width,
        t <= b <= old(dst)@.height,
    ensures
        final(dst)@.width == old(dst)@.width,
        final(dst)@.height == old(dst)@.height,
        forall|x: int, y: int|
            in_bounds(old(dst)@, x, y) ==> #[trigger] pixel_at(final(dst)@, x, y) == rect_pixel(
                old(dst)@,
                l as int,
                t as int,
                r as int,
                b as int,
                BlendMode::Composite,
                color@,
                x,
                y,
            ),
        rect_near(old(dst)@, final(dst)@, l as int, t as int, r as int, b as int, color@),
{
    blend_rect(dst, l, t, r, b, color, BlendMode::Composite);
}

/// Blends `color` into `[l, r) x [t, b)`, whose columns start and end on 16-pixel
/// blocks, with the fixed-point source-over blend; every pixel it touches
/// becomes fully opaque.
pub fn fill_rect_aligned(dst: &mut AlignedImage, l: u32, t: u32, r: u32, b: u32, color: [u8; 4])
    requires
        l % 16 == 0,
        r % 16 == 0,
        l <= r <= old(dst)@.width,
        t <= b <= old(dst)@.height,
    ensures
        final(dst)@.width == old(dst)@.width,
        final(dst)@.height == old(dst)@.height,
        forall|x: int, y: int|
            in_bounds(old(dst)@, x, y) ==> #[trigger] pixel_at(final(dst)@, x, y) == rect_pixel(
                old(dst)@,
                l as int,
                t as int,
                r as int,
                b as int,
                BlendMode::FixedPoint,
                color@,
                x,
                y,
            ),
        rect_near(old(dst)@, final(dst)@, l as int, t as int, r as int, b as int, color@),
{
    blend_rect(dst, l, t, r, b, color, BlendMode::FixedPoint);
}

/// The smaller of two values.
pub open spec fn min_u32(a: u32, b: u32) -> u32 {
    if a <= b {
        a
    } else {
        b
    }
}

/// The larger of two values.
pub open spec fn max_u32(a: u32, b: u32) -> u32 {
    if a <= b {
        b
    } else {
        a
    }
}

/// `v` rounded up to a multiple of 16.
pub open spec fn ceil16(v: int) -> int {
    (v + 15) / 16 * 16
}

/// `v` rounded down to a multiple of 16.
pub open spec fn floor16(v: int) -> int {
    v / 16 * 16
}

/// Pixel `(x, y)` of `m` after `fill_rect(l, t, r, b, color)`. The corners may
/// come in either order and the rectangle is clipped to the image. Columns in
/// the 16-pixel blocks that lie wholly inside the rectangle get the fixed-point
/// blend (and become opaque); the columns left over at either side get
/// `image::Rgba::blend`.
pub open spec fn fill_rect_pixel(
    m: ImageModel,
    l: u32,
    t: u32,
    r: u32,
    b: u32,
    color: Seq<u8>,
    x: int,
    y: int,
) -> Seq<u8> {
    let left = min_u32(min_u32(l, r), m.width) as int;
    let right = min_u32(max_u32(l, r), m.width) as int;
    let top = min_u32(min_u32(t, b), m.height) as int;
    let bottom = min_u32(max_u32(t, b), m.height) as int;
    let block_left = ceil16(left);
    let block_right = floor16(right);
    if left <= x < right && top <= y < bottom {
        if block_left < block_right && block_left <= x < block_right {
            blend_opaque_spec(color, pixel_at(m, x, y))
        } else {
            rgba_blend(pixel_at(m, x, y), color)
        }
    } else {
        pixel_at(m, x, y)
    }
}

/// `(x, y)` lies in the rectangle with corners `(l, t)` and `(r, b)`, clipped
/// to the image.
pub open spec fn in_fill_rect(m: ImageModel, l: u32, t: u32, r: u32, b: u32, x: int, y: int) -> bool {
    &&& min_u32(min_u32(l, r), m.width) <= x < min_u32(max_u32(l, r), m.width)
    &&& min_u32(min_u32(t, b), m.height) <= y < min_u32(max_u32(t, b), m.height)
}

/// Blends `color` into the rectangle with corners `(l, t)` and `(r, b)` (in
/// either order, right and bottom edges excluded), clipped to the image.
/// Every fully opaque pixel inside gets, in each colour channel, a value within
/// one unit of the 8-bit source-over blend of `color` over it.
pub fn fill_rect(dst: &mut AlignedImage, l: u32, t: u32, r: u32, b: u32, color: [u8; 4])
    ensures
        final(dst)@.width == old(dst)@.width,
        final(dst)@.height == old(dst)@.height,
        forall|x: int, y: int|
            in_bounds(old(dst)@, x, y) ==> #[trigger] pixel_at(final(dst)@, x, y)
                == fill_rect_pixel(old(dst)@, l, t, r, b, color@, x, y),
        forall|x: int, y: int|
            in_bounds(old(dst)@, x, y) && in_fill_rect(old(dst)@, l, t, r, b, x, y) && (
            #[trigger] pixel_at(old(dst)@, x, y))[3] == 255 ==> near_blend(
                color@,
                pixel_at(old(dst)@, x, y),
                pixel_at(final(dst)@, x, y),
            ),
{
    proof {
        use_type_invariant(&*dst);
    }
    let ghost orig = dst@;
    let ghost (l0, t0, r0, b0) = (l, t, r, b);
    let (l, r) = if l <= r { (l, r) } else { (r, l) };
    let (t, b) = if t <= b { (t, b) } else { (b, t) };
    let w = dst.width();
    let h = dst.height();
    let l = if l <= w { l } else { w };
    let r = if r <= w { r } else { w };
    let t = if t <= h { t } else { h };
    let b = if b <= h { b } else { h };
    if l == r || t == b {
        return;
    }
    let simd_l = (l + 15) / 16 * 16;
    let simd_r = r / 16 * 16;
    let left_end = if simd_l <= r { simd_l } else { r };
    let right_start = if simd_r >= left_end { simd_r } else { left_end };
    let ghost m0 = dst@;
    if simd_l < simd_r {
        fill_rect_aligned(dst, simd_l, t, simd_r, b, color);
    }
    let ghost m1 = dst@;
    fill_rect_scalar(dst, l, t, left_end, b, color);
    let ghost m2 = dst@;
    fill_rect_scalar(dst, right_start, t, r, b, color);
    assert forall|x: int, y: int| in_bounds(orig, x, y) implies #[trigger] pixel_at(dst@, x, y)
        == fill_rect_pixel(orig, l, t, r, b, color@, x, y) by {
        assert(pixel_at(m2, x, y) == rect_pixel(m1, l as int, t as int, left_end as int, b as int, BlendMode::Composite, color@, x, y));
        if simd_l < simd_r {
            assert(pixel_at(m1, x, y) == rect_pixel(orig, simd_l as int, t as int, simd_r as int, b as int, BlendMode::FixedPoint, color@, x, y));
        }
    }
    assert forall|x: int, y: int|
        in_bounds(orig, x, y) && in_fill_rect(orig, l0, t0, r0, b0, x, y) && (
        #[trigger] pixel_at(orig, x, y))[3] == 255 implies near_blend(
        color@,
        pixel_at(orig, x, y),
        pixel_at(dst@, x, y),
    ) by {
        assert(pixel_at(m2, x, y) == rect_pixel(m1, l as int, t as int, left_end as int, b as int, BlendMode::Composite, color@, x, y));
        if simd_l < simd_r {
            assert(pixel_at(m1, x, y) == rect_pixel(orig, simd_l as int, t as int, simd_r as int, b as int, BlendMode::FixedPoint, color@, x, y));
        }
        if simd_l < simd_r && simd_l <= x < simd_r {
            assert(near_blend(color@, pixel_at(orig, x, y), pixel_at(m1, x, y)));
        } else if x < left_end {
            assert(pixel_at(m1, x, y) == pixel_at(orig, x, y));
            assert(pixel_at(m1, x, y)[3] == 255);
            assert(near_blend(color@, pixel_at(m1, x, y), pixel_at(m2, x, y)));
        } else {
            assert(pixel_at(m1, x, y) == pixel_at(orig, x, y));
            assert(pixel_at(m2, x, y) == pixel_at(orig, x, y));
            assert(pixel_at(m2, x, y)[3] == 255);
        }
    }
}

/// Every pixel of the 16-pixel block of row `sy` of `src` that starts at column
/// `bx` is fully transparent.
pub open spec fn block_transparent(src: ImageModel, bx: int, sy: int) -> bool {
    forall|k: int| 0 <= k < 16 ==> (#[trigger] pixel_at(src, bx + k, sy))[3] == 0
}

/// Pixel `(px, py)` of `dst` after `src` is drawn with its top-left corner at
/// `(x, y)`: inside the drawn area, a pixel whose 16-pixel source block is wholly
/// transparent is left alone, and any other gets the source pixel blended over it
/// and becomes opaque.
pub open spec fn draw_image_pixel(
    dst: ImageModel,
    x: int,
    y: int,
    src: ImageModel,
    px: int,
    py: int,
) -> Seq<u8> {
    if x <= px < x + src.width && y <= py < y + src.height {
        if block_transparent(src, floor16(px - x), py - y) {
            pixel_at(dst, px, py)
        } else {
            blend_opaque_spec(pixel_at(src, px - x, py - y), pixel_at(dst, px, py))
        }
    } else {
        pixel_at(dst, px, py)
    }
}

/// Whether the 16-pixel block of row `sy` starting at column `bx` is wholly
/// transparent.
fn block_is_transparent(src: &AlignedImage, bx: u32, sy: u32) -> (r: bool)
    requires
        bx + 16 <= src@.width,
        sy < src@.height,
    ensures
        r == block_transparent(src@, bx as int, sy as int),
{
    let mut k: u32 = 0;
    let mut transparent = true;
    while k < 16
        invariant
            bx + 16 <= src@.width,
            sy < src@.height,
            k <= 16,
            transparent == forall|k2: int|
                0 <= k2 < k ==> (#[trigger] pixel_at(src@, bx + k2, sy as int))[3] == 0,
        decreases 16 - k,
    {
        let p = src.pixel(bx + k, sy);
        if p[3] != 0 {
            transparent = false;
        }
        k = k + 1;
    }
    transparent
}

/// Draws `src` onto `dst` with its top-left corner at `(x, y)`, a 16-pixel block
/// at a time.
fn draw_image_blocks(dst: &mut AlignedImage, x: u32, y: u32, src: &AlignedImage)
    requires
        x % 16 == 0,
        x + src@.width <= old(dst)@.width,
        y + src@.height <= old(dst)@.height,
    ensures
        final(dst)@.width == old(dst)@.width,
        final(dst)@.height == old(dst)@.height,
        forall|px: int, py: int|
            in_bounds(old(dst)@, px, py) ==> #[trigger] pixel_at(final(dst)@, px, py)
                == draw_image_pixel(old(dst)@, x as int, y as int, src@, px, py),
{
    proof {
        use_type_invariant(src);
    }
    let ghost orig = dst@;
    let sw = src.width();
    let sh = src.height();
    let mut sy: u32 = 0;
    while sy < sh
        invariant
            sw == src@.width,
            sw % 16 == 0,
            sh == src@.height,
            dst@.width == orig.width,
            dst@.height == orig.height,
            x + sw <= orig.width,
            y + sh <= orig.height,
            sy <= sh,
            forall|px: int, py: int|
                in_bounds(orig, px, py) ==> #[trigger] pixel_at(dst@, px, py) == (if py - y
                    < sy {
                    draw_image_pixel(orig, x as int, y as int, src@, px, py)
                } else {
                    pixel_at(orig, px, py)
                }),
        decreases sh - sy,
    {
        let mut c: u32 = 0;
        while c < sw
            invariant
                sw == src@.width,
                sh == src@.height,
                sw % 16 == 0,
                c % 16 == 0,
                c <= sw,
                dst@.width == orig.width,
                dst@.height == orig.height,
                x + sw <= orig.width,
                y + sh <= orig.height,
                sy < sh,
                forall|px: int, py: int|
                    in_bounds(orig, px, py) ==> #[trigger] pixel_at(dst@, px, py) == (if py - y
                        < sy || (py - y == sy && px - x < c) {
                        draw_image_pixel(orig, x as int, y as int, src@, px, py)
                    } else {
                        pixel_at(orig, px, py)
                    }),
            decreases sw - c,
        {
            let transparent = block_is_transparent(src, c, sy);
            if !transparent {
                let mut k: u32 = 0;
                while k < 16
                    invariant
                        sw == src@.width,
                        sh == src@.height,
                        c % 16 == 0,
                        c + 16 <= sw,
                        k <= 16,
                        !block_transparent(src@, c as int, sy as int),
                        dst@.width == orig.width,
                        dst@.height == orig.height,
                        x + sw <= orig.width,
                        y + sh <= orig.height,
                        sy < sh,
                        forall|px: int, py: int|
                            in_bounds(orig, px, py) ==> #[trigger] pixel_at(dst@, px, py) == (if py
                                - y < sy || (py - y == sy && px - x < c + k) {
                                draw_image_pixel(orig, x as int, y as int, src@, px, py)
                            } else {
                                pixel_at(orig, px, py)
                            }),
                    decreases 16 - k,
                {
                    let sp = src.pixel(c + k, sy);
                    let dp = dst.pixel(x + c + k, y + sy);
                    dst.set_pixel(x + c + k, y + sy, blend_opaque(sp, dp));
                    proof {
                        assert(floor16((c + k) as int) == c);
                    }
                    k = k + 1;
                }
            } else {
                assert forall|px: int, py: int|
                    in_bounds(orig, px, py) && py - y == sy && c <= px - x < c + 16 implies #[trigger] draw_image_pixel(orig, x as int, y as int, src@, px, py)
                        == pixel_at(orig, px, py) by {
                    assert(floor16(px - x) == c);
                }
            }
            c = c + 16;
        }
        sy = sy + 1;
    }
}

/// Draws `src` onto `dst` with its top-left corner at `(x, y)`. The column `x`
/// lies on a 16-pixel block and the image fits inside `dst`.
pub fn draw_image(dst: &mut AlignedImage, x: u32, y: u32, src: &AlignedImage)
    requires
        x % 16 == 0,
        x + src@.width <= old(dst)@.width,
        y + src@.height <= old(dst)@.height,
    ensures
        final(dst)@.width == old(dst)@.width,
        final(dst)@.height == old(dst)@.height,
        forall|px: int, py: int|
            in_bounds(old(dst)@, px, py) ==> #[trigger] pixel_at(final(dst)@, px, py)
                == draw_image_pixel(old(dst)@, x as int, y as int, src@, px, py),
{
    draw_image_blocks(dst, x, y, src);
}

/// Overwrites `dst` with the pixels of `src` whose colour channels are scaled by
/// `alpha`; every pixel becomes fully opaque. Both images hold the same number
/// of bytes.
pub fn copy_image_with_alpha(src: &AlignedImage, dst: &mut AlignedImage, alpha: u8)
    requires
        src@.bytes.len() == old(dst)@.bytes.len(),
    ensures
        final(dst)@.width == old(dst)@.width,
        final(dst)@.height == old(dst)@.height,
        final(dst)@.bytes == fade_bytes(src@.bytes, alpha),
{
    dst.fade_from(src, alpha);
}

/// Which corner or edge midpoint of a text block is placed at the given point.
#[derive(Clone, Copy)]
pub enum TextAnchor {
    TopLeft,
    TopCenter,
    TopRight,
    BottomLeft,
    BottomCenter,
    BottomRight,
}

/// `v` divided by 2, rounded toward zero (Rust's `/` on `i32`).
pub open spec fn half_toward_zero(v: int) -> int {
    if v >= 0 {
        v / 2
    } else {
        -((-v) / 2)
    }
}

/// The `i32` that has the same bits as `v` (`u32::cast_signed`).
pub open spec fn signed_of(v: u32) -> int {
    if v <= i32::MAX {
        v as int
    } else {
        v - 0x1_0000_0000
    }
}

/// Horizontal position of a glyph pixel at offset `bx` inside a text block of
/// width `width` anchored at `x`.
pub open spec fn anchored_x(anchor: TextAnchor, x: u32, width: i32, bx: i32) -> int {
    match anchor {
        TextAnchor::TopLeft | TextAnchor::BottomLeft => signed_of(x) + bx,
        TextAnchor::TopCenter | TextAnchor::BottomCenter => signed_of(x) - half_toward_zero(
            width as int,
        ) + bx,
        TextAnchor::TopRight | TextAnchor::BottomRight => signed_of(x) - width + bx,
    }
}

/// Vertical position of a glyph pixel at offset `by` inside a text block of
/// height `height` anchored at `y`.
pub open spec fn anchored_y(anchor: TextAnchor, y: u32, height: i32, by: i32) -> int {
    match anchor {
        TextAnchor::TopLeft | TextAnchor::TopCenter | TextAnchor::TopRight => signed_of(y) + by,
        _ => signed_of(y) - height + by,
    }
}

/// `v` lies in the range of `i32`.
pub open spec fn fits_i32(v: int) -> bool {
    i32::MIN <= v <= i32::MAX
}

/// Every intermediate `i32` value of the placement stays in range.
pub open spec fn anchor_fits(
    anchor: TextAnchor,
    x: u32,
    y: u32,
    width: i32,
    height: i32,
    bx: i32,
    by: i32,
) -> bool {
    &&& fits_i32(anchored_x(anchor, x, width, bx))
    &&& fits_i32(anchored_y(anchor, y, height, by))
    &&& fits_i32(signed_of(x) - half_toward_zero(width as int))
    &&& fits_i32(signed_of(x) - width)
    &&& fits_i32(signed_of(y) - height)
}

/// Where the glyph pixel at offset `(bx, by)` of a text block of size
/// `width x height` anchored at `(x, y)` lands, when both coordinates are
/// non-negative.
pub fn glyph_position(
    anchor: TextAnchor,
    x: u32,
    y: u32,
    width: i32,
    height: i32,
    bx: i32,
    by: i32,
) -> (pos: Option<(u32, u32)>)
    requires
        anchor_fits(anchor, x, y, width, height, bx, by),
    ensures
        pos == (if anchored_x(anchor, x, width, bx) >= 0 && anchored_y(anchor, y, height, by)
            >= 0 {
            Some(
                (
                    anchored_x(anchor, x, width, bx) as u32,
                    anchored_y(anchor, y, height, by) as u32,
                ),
            )
        } else {
            None
        }),
{
    let sx: i32 = if x <= 0x7fff_ffff {
        x as i32
    } else {
        (x - 0x8000_0000) as i32 - 0x4000_0000 - 0x4000_0000
    };
    let sy: i32 = if y <= 0x7fff_ffff {
        y as i32
    } else {
        (y - 0x8000_0000) as i32 - 0x4000_0000 - 0x4000_0000
    };
    let px: i32 = match anchor {
        TextAnchor::TopLeft | TextAnchor::BottomLeft => sx + bx,
        TextAnchor::TopCenter | TextAnchor::BottomCenter => sx - width / 2 + bx,
        TextAnchor::TopRight | TextAnchor::BottomRight => sx - width + bx,
    };
    let py: i32 = match anchor {
        TextAnchor::TopLeft | TextAnchor::TopCenter | TextAnchor::TopRight => sy + by,
        _ => sy - height + by,
    };
    if px >= 0 && py >= 0 {
        Some((px as u32, py as u32))
    } else {
        None
    }
}

/// The label shown for the server status: healthy, stale, or offline when no
/// status is known.
pub open spec fn health_label_spec(status: Option<BalbirdData>) -> Seq<char> {
    match status {
        Some(data) => if data.is_healthy {
            "HEALTHY"@
        } else {
            "STALE"@
        },
        None => "OFFLINE"@,
    }
}

/// The label shown for the server status.
pub fn health_label(status: Option<&BalbirdData>) -> (label: &'static str)
    ensures
        label@ == health_label_spec(
            match status {
                Some(d) => Some(*d),
                None => None,
            },
        ),
{
    match status {
        Some(data) if data.is_healthy => "HEALTHY",
        Some(_) => "STALE",
        None => "OFFLINE",
    }
}

/// `v` clamped to the range of `u8`.
pub open spec fn saturate_u8(v: int) -> u8 {
    if v < 0 {
        0
    } else if v > 255 {
        255
    } else {
        v as u8
    }
}

/// `v` clamped to the range of `u8` (what `az::SaturatingAs::<u8>` does for an
/// `i64`).
pub fn saturating_u8(v: i64) -> (r: u8)
    ensures
        r == saturate_u8(v as int),
{
    if v < 0 {
        0
    } else if v > 255 {
        255
    } else {
        v as u8
    }
}

/// What the display does on one tick of its frame timer.
pub struct FrameStep {
    /// Advance the wallpaper queue before drawing.
    pub advance_wallpaper: bool,
    /// Draw a frame with this wallpaper opacity, or draw nothing.
    pub draw_alpha: Option<u8>,
    /// The second to remember for the next tick.
    pub last_second: Option<u32>,
}

/// The first second of each five-minute cycle.
pub open spec fn cycle_start(minute: u32, second: u32) -> bool {
    minute % 5 == 0 && second == 0
}

/// The last second of each five-minute cycle.
pub open spec fn cycle_end(minute: u32, second: u32) -> bool {
    minute % 5 == 4 && second == 59
}

/// The wallpaper opacity while it fades in over the first second of a cycle.
pub open spec fn fade_in_alpha(sub_millis: u32) -> u8 {
    saturate_u8(sub_millis * 255 / 1000)
}

/// What the display does at `minute:second` plus `sub_millis` milliseconds,
/// having last drawn in `last_second`: it advances the wallpaper once at the
/// start of each five-minute cycle, fades the wallpaper in during the first
/// second and out during the last second of the cycle, and otherwise draws once
/// per second at full opacity.
pub open spec fn frame_step_spec(
    minute: u32,
    second: u32,
    sub_millis: u32,
    last_second: Option<u32>,
) -> FrameStep {
    let start = cycle_start(minute, second);
    let end = cycle_end(minute, second);
    let advance = start && last_second != Some(second);
    if start {
        FrameStep {
            advance_wallpaper: advance,
            draw_alpha: Some(fade_in_alpha(sub_millis)),
            last_second: Some(second),
        }
    } else if end {
        FrameStep {
            advance_wallpaper: advance,
            draw_alpha: Some((255 - fade_in_alpha(sub_millis)) as u8),
            last_second: Some(second),
        }
    } else if last_second == Some(second) {
        FrameStep { advance_wallpaper: advance, draw_alpha: None, last_second }
    } else {
        FrameStep {
            advance_wallpaper: advance,
            draw_alpha: Some(255u8),
            last_second: Some(second),
        }
    }
}

/// Decides what the display does on one tick of its frame timer.
pub fn frame_step(minute: u32, second: u32, sub_millis: u32, last_second: Option<u32>) -> (step:
    FrameStep)
    ensures
        step == frame_step_spec(minute, second, sub_millis, last_second),
{
    let start = minute % 5 == 0 && second == 0;
    let end = minute % 5 == 4 && second == 59;
    let same_second = match last_second {
        Some(s) => s == second,
        None => false,
    };
    let advance = start && !same_second;
    let sub: i64 = sub_millis as i64;
    if start {
        let a = saturating_u8(sub * 255 / 1000);
        FrameStep { advance_wallpaper: advance, draw_alpha: Some(a), last_second: Some(second) }
    } else if end {
        let a = saturating_u8(sub * 255 / 1000);
        FrameStep {
            advance_wallpaper: advance,
            draw_alpha: Some(255 - a),
            last_second: Some(second),
        }
    } else if same_second {
        FrameStep { advance_wallpaper: advance, draw_alpha: None, last_second }
    } else {
        FrameStep { advance_wallpaper: advance, draw_alpha: Some(255), last_second: Some(second) }
    }
}

/// The corners of a filled rectangle may be given in either order: filling
/// from `(l, t)` to `(r, b)` is filling from `(r, b)` to `(l, t)`, or from
/// `(r, t)` to `(l, b)`.
pub proof fn lemma_fill_rect_corner_order(
    m: ImageModel,
    l: u32,
    t: u32,
    r: u32,
    b: u32,
    color: Seq<u8>,
    x: int,
    y: int,
)
    ensures
        fill_rect_pixel(m, l, t, r, b, color, x, y) == fill_rect_pixel(m, r, b, l, t, color, x, y),
        fill_rect_pixel(m, l, t, r, b, color, x, y) == fill_rect_pixel(m, r, t, l, b, color, x, y),
{
}

/// A fill leaves every pixel outside its (clipped) rectangle unchanged.
pub proof fn lemma_fill_rect_outside(
    m: ImageModel,
    l: u32,
    t: u32,
    r: u32,
    b: u32,
    color: Seq<u8>,
    x: int,
    y: int,
)
    requires
        !(min_u32(l, r) <= x < max_u32(l, r) && min_u32(t, b) <= y < max_u32(t, b)),
    ensures
        fill_rect_pixel(m, l, t, r, b, color, x, y) == pixel_at(m, x, y),
{
}

/// Drawing an image leaves every pixel outside the drawn area unchanged, and a
/// fully opaque source pixel replaces the destination pixel.
pub proof fn lemma_draw_image_pixel(
    dst: ImageModel,
    x: int,
    y: int,
    src: ImageModel,
    px: int,
    py: int,
)
    requires
        image_wf(src),
    ensures
        !(x <= px < x + src.width && y <= py < y + src.height) ==> draw_image_pixel(
            dst,
            x,
            y,
            src,
            px,
            py,
        ) == pixel_at(dst, px, py),
        x <= px < x + src.width && y <= py < y + src.height && pixel_at(src, px - x, py - y)[3]
            == 255 ==> draw_image_pixel(dst, x, y, src, px, py) == pixel_at(src, px - x, py - y),
{
    if x <= px < x + src.width && y <= py < y + src.height && pixel_at(src, px - x, py - y)[3]
        == 255 {
        lemma_index_bounds(src, px - x, py - y);
        let bx = floor16(px - x);
        assert(0 <= px - x - bx < 16);
        assert(pixel_at(src, bx + (px - x - bx), py - y)[3] == 255);
        assert(!block_transparent(src, bx, py - y));
        lemma_blend_opaque_of_opaque_source(
            pixel_at(src, px - x, py - y),
            pixel_at(dst, px, py),
        );
    }
}

/// Drawing an image blends, at every drawn pixel, the source pixel over the
/// destination: where the 16-pixel source block holding it (starting at column
/// `(px - x) / 16 * 16`) is wholly transparent the destination is kept;
/// otherwise each colour channel becomes `(s * a + d * (255 - a)) / 255` for
/// the source alpha `a`, and the pixel becomes fully opaque.
pub proof fn lemma_draw_image_blends(
    dst: ImageModel,
    x: int,
    y: int,
    src: ImageModel,
    px: int,
    py: int,
)
    requires
        image_wf(dst),
        image_wf(src),
        in_bounds(dst, px, py),
        x <= px < x + src.width,
        y <= py < y + src.height,
    ensures
        ({
            let s = pixel_at(src, px - x, py - y);
            let d = pixel_at(dst, px, py);
            let r = draw_image_pixel(dst, x, y, src, px, py);
            let bx = (px - x) / 16 * 16;
            &&& (forall|k: int| 0 <= k < 16 ==> (#[trigger] pixel_at(src, bx + k, py - y))[3] == 0)
                ==> r == d
            &&& !(forall|k: int| 0 <= k < 16 ==> (#[trigger] pixel_at(src, bx + k, py - y))[3] == 0)
                ==> {
                &&& r.len() == 4
                &&& r[0] == (s[0] * s[3] + d[0] * (255 - s[3])) / 255
                &&& r[1] == (s[1] * s[3] + d[1] * (255 - s[3])) / 255
                &&& r[2] == (s[2] * s[3] + d[2] * (255 - s[3])) / 255
                &&& r[3] == 255
            }
        }),
{
    lemma_index_bounds(dst, px, py);
    lemma_index_bounds(src, px - x, py - y);
    let s = pixel_at(src, px - x, py - y);
    let d = pixel_at(dst, px, py);
    lemma_blend_sum_bound(s[0], d[0], s[3]);
    lemma_blend_sum_bound(s[1], d[1], s[3]);
    lemma_blend_sum_bound(s[2], d[2], s[3]);
    assert(floor16(px - x) == (px - x) / 16 * 16);
}

/// The server status reads `HEALTHY` for a healthy server, `STALE` for one
/// that answered but is not healthy, and `OFFLINE` when no status is known.
pub proof fn lemma_health_label_texts(data: BalbirdData)
    ensures
        data.is_healthy ==> health_label_spec(Some(data)) == "HEALTHY"@,
        !data.is_healthy ==> health_label_spec(Some(data)) == "STALE"@,
        health_label_spec(None) == "OFFLINE"@,
{
}

/// Where a glyph pixel lands, for an anchor point and a text block with
/// non-negative coordinates and size: the left anchors put the block's left
/// edge at `x`, the centre anchors its middle (half the width, rounded down),
/// the right anchors its right edge; the top anchors put its top at `y` and
/// the bottom anchors its bottom.
pub proof fn lemma_glyph_anchor_placement(
    anchor: TextAnchor,
    x: u32,
    y: u32,
    width: i32,
    height: i32,
    bx: i32,
    by: i32,
)
    requires
        x <= i32::MAX,
        y <= i32::MAX,
        width >= 0,
        height >= 0,
    ensures
        (anchor is TopLeft || anchor is BottomLeft) ==> anchored_x(anchor, x, width, bx) == x + bx,
        (anchor is TopCenter || anchor is BottomCenter) ==> anchored_x(anchor, x, width, bx) == x
            - width / 2 + bx,
        (anchor is TopRight || anchor is BottomRight) ==> anchored_x(anchor, x, width, bx) == x
            - width + bx,
        (anchor is TopLeft || anchor is TopCenter || anchor is TopRight) ==> anchored_y(
            anchor,
            y,
            height,
            by,
        ) == y + by,
        (anchor is BottomLeft || anchor is BottomCenter || anchor is BottomRight) ==> anchored_y(
            anchor,
            y,
            height,
            by,
        ) == y - height + by,
{
}

/// What one frame tick does, stated directly on the clock: at the first second
/// of every five-minute cycle (`minute % 5 == 0`, second 0) the wallpaper
/// advances once (unless this second was already drawn) and fades in with
/// opacity `sub_millis * 255 / 1000` (at most 255); in the last second of the
/// cycle (`minute % 5 == 4`, second 59) it fades out with opacity 255 minus
/// that; at any other time it never advances and a frame is drawn at full
/// opacity once per second. The second drawn is remembered whenever a frame
/// is drawn.
pub proof fn lemma_frame_step_cycle(
    minute: u32,
    second: u32,
    sub_millis: u32,
    last_second: Option<u32>,
)
    ensures
        ({
            let step = frame_step_spec(minute, second, sub_millis, last_second);
            let ramp: int = if sub_millis * 255 / 1000 > 255 {
                255
            } else {
                sub_millis * 255 / 1000
            };
            &&& (minute % 5 == 0 && second == 0) ==> step.draw_alpha == Some(ramp as u8)
                && step.last_second == Some(0u32) && (step.advance_wallpaper <==> last_second
                != Some(0u32))
            &&& (minute % 5 == 4 && second == 59) ==> step.draw_alpha == Some((255 - ramp) as u8)
                && step.last_second == Some(59u32) && !step.advance_wallpaper
            &&& !(minute % 5 == 0 && second == 0) ==> !step.advance_wallpaper
            &&& !(minute % 5 == 0 && second == 0) && !(minute % 5 == 4 && second == 59) ==> (
            if last_second == Some(second) {
                step.draw_alpha is None && step.last_second == last_second
            } else {
                step.draw_alpha == Some(255u8) && step.last_second == Some(second)
            })
        }),
{
}

/// The wallpaper advances at most once per second: a tick in the same second
/// after one that advanced it does not advance it again.
pub proof fn lemma_frame_advances_once(
    minute: u32,
    second: u32,
    sub_millis: u32,
    later_millis: u32,
    last_second: Option<u32>,
)
    ensures
        !frame_step_spec(
            minute,
            second,
            later_millis,
            frame_step_spec(minute, second, sub_millis, last_second).last_second,
        ).advance_wallpaper || !frame_step_spec(
            minute,
            second,
            sub_millis,
            last_second,
        ).advance_wallpaper,
{
}

/// Outside the fades a frame is drawn at most once per second, at full opacity.
pub proof fn lemma_frame_draws_once_per_second(
    minute: u32,
    second: u32,
    sub_millis: u32,
    later_millis: u32,
    last_second: Option<u32>,
)
    requires
        !cycle_start(minute, second),
        !cycle_end(minute, second),
    ensures
        frame_step_spec(minute, second, sub_millis, last_second).draw_alpha is Some ==> (
        frame_step_spec(minute, second, sub_millis, last_second).draw_alpha == Some(255u8)
            && frame_step_spec(
            minute,
            second,
            later_millis,
            frame_step_spec(minute, second, sub_millis, last_second).last_second,
        ).draw_alpha is None),
{
}

/// During the first second of a cycle the wallpaper fades in and during the
/// last second it fades out: the opacity never falls while fading in and never
/// rises while fading out.
pub proof fn lemma_fade_monotonic(a: u32, b: u32)
    requires
        a <= b,
    ensures
        fade_in_alpha(a) <= fade_in_alpha(b),
{
    assert(a * 255 <= b * 255) by (nonlinear_arith)
        requires
            a <= b,
    ;
    assert(a * 255 / 1000 <= b * 255 / 1000) by (nonlinear_arith)
        requires
            a * 255 <= b * 255,
    ;
}

/// The three decimal digits of `k` (below 1000), zero-padded.
pub open spec fn three_digits(k: nat) -> Seq<char> {
    seq![digit_char((k / 100) as int), digit_char((k / 10 % 10) as int), digit_char((k % 10) as int)]
}

/// `n` in decimal with a comma between each group of three digits.
pub open spec fn grouped(n: nat) -> Seq<char>
    decreases n,
{
    if n < 1000 {
        decimal(n)
    } else {
        grouped(n / 1000) + seq![','] + three_digits(n % 1000)
    }
}

/// `n` in decimal with thousands separated by commas, and a minus sign when
/// negative.
pub open spec fn with_commas_spec(n: int) -> Seq<char> {
    if n < 0 {
        seq!['-'] + grouped((-n) as nat)
    } else {
        grouped(n as nat)
    }
}

/// `n` in decimal, groups of three digits separated by commas.
fn grouped_string(n: u64) -> (s: String)
    ensures
        s@ == grouped(n as nat),
    decreases n,
{
    if n < 1000 {
        decimal_string(n)
    } else {
        let k = n % 1000;
        let s = grouped_string(n / 1000).concat(",").concat(digit_str(k / 100)).concat(
            digit_str(k / 10 % 10),
        ).concat(digit_str(k % 10));
        proof {
            reveal_strlit(",");
            assert(s@ =~= grouped(n as nat));
        }
        s
    }
}

/// `n` with its thousands separated by commas (e.g. `1,013`).
pub fn with_commas(n: i32) -> (s: String)
    ensures
        s@ == with_commas_spec(n as int),
{
    if n < 0 {
        let m: u64 = (0i64 - n as i64) as u64;
        let s = String::from_str("-").concat(grouped_string(m).as_str());
        proof {
            reveal_strlit("-");
            assert(s@ =~= with_commas_spec(n as int));
        }
        s
    } else {
        grouped_string(n as u64)
    }
}

/// `s` with its commas removed.
pub open spec fn without_commas(s: Seq<char>) -> Seq<char>
    decreases s.len(),
{
    if s.len() == 0 {
        s
    } else if s.last() == ',' {
        without_commas(s.drop_last())
    } else {
        without_commas(s.drop_last()).push(s.last())
    }
}

/// Removing commas from a concatenation removes them from each part.
proof fn lemma_without_commas_concat(a: Seq<char>, b: Seq<char>)
    ensures
        without_commas(a + b) == without_commas(a) + without_commas(b),
    decreases b.len(),
{
    if b.len() == 0 {
        assert(a + b =~= a);
        assert(without_commas(a) + without_commas(b) =~= without_commas(a));
    } else {
        lemma_without_commas_concat(a, b.drop_last());
        assert((a + b).drop_last() =~= a + b.drop_last());
        assert((a + b).last() == b.last());
        if b.last() != ',' {
            assert(without_commas(a) + without_commas(b) =~= (without_commas(a) + without_commas(
                b.drop_last(),
            )).push(b.last()));
        }
    }
}

/// A string of digits has no commas to remove.
proof fn lemma_without_commas_digits(s: Seq<char>)
    requires
        all_digits(s),
    ensures
        without_commas(s) == s,
    decreases s.len(),
{
    if s.len() > 0 {
        assert(all_digits(s.drop_last()));
        lemma_without_commas_digits(s.drop_last());
        assert(s.last() != ',');
        assert(s.drop_last().push(s.last()) =~= s);
    }
}

/// The decimal text of `n` (at least 1000) is that of `n / 1000` followed by
/// the three low digits.
proof fn lemma_decimal_split(n: nat)
    requires
        n >= 1000,
    ensures
        decimal(n) == decimal(n / 1000) + three_digits(n % 1000),
{
    let q = n / 1000;
    let r = n % 1000;
    assert(n / 10 / 10 == n / 100 && n / 100 / 10 == n / 1000 && n / 10 >= 100 && n / 100 >= 10)
        by (nonlinear_arith)
        requires
            n >= 1000,
    ;
    assert(r / 100 == n / 100 % 10 && r / 10 % 10 == n / 10 % 10 && r % 10 == n % 10) by (
    nonlinear_arith)
        requires
            q == n / 1000,
            r == n % 1000,
            n >= 1000,
    ;
    assert(decimal(n / 100) == decimal(n / 1000).push(digit_char((n / 100 % 10) as int)));
    assert(decimal(n / 10) == decimal(n / 100).push(digit_char((n / 10 % 10) as int)));
    assert(decimal(n) == decimal(n / 10).push(digit_char((n % 10) as int)));
    assert(decimal(n) =~= decimal(n / 1000) + three_digits(n % 1000));
}

/// Grouping with commas only inserts commas: removing them gives the plain
/// decimal text of the number (after its sign); below 1000 (in size) there is
/// no comma, and from 1000 on the text ends in a comma and three digits.
pub proof fn lemma_with_commas_groups(n: int)
    ensures
        n >= 0 ==> without_commas(with_commas_spec(n)) == decimal(n as nat),
        n < 0 ==> with_commas_spec(n)[0] == '-' && without_commas(
            with_commas_spec(n).subrange(1, with_commas_spec(n).len() as int),
        ) == decimal((-n) as nat),
        -1000 < n < 1000 ==> forall|i: int|
            0 <= i < with_commas_spec(n).len() ==> #[trigger] with_commas_spec(n)[i] != ',',
        (n >= 1000 || n <= -1000) ==> ({
            let t = with_commas_spec(n);
            &&& t.len() >= 4
            &&& t[t.len() - 4] == ','
            &&& all_digits(t.subrange(t.len() - 3, t.len() as int))
        }),
{
    let m: nat = if n < 0 {
        (-n) as nat
    } else {
        n as nat
    };
    lemma_grouped_without_commas(m);
    lemma_decimal_spells(m);
    if n < 0 {
        assert(with_commas_spec(n).subrange(1, with_commas_spec(n).len() as int) =~= grouped(m));
    }
    if m < 1000 {
        assert forall|i: int| 0 <= i < with_commas_spec(n).len() implies #[trigger] with_commas_spec(
            n,
        )[i] != ',' by {
            if n < 0 {
                if i > 0 {
                    assert(with_commas_spec(n)[i] == decimal(m)[i - 1]);
                }
            } else {
                assert(with_commas_spec(n)[i] == decimal(m)[i]);
            }
        }
    } else {
        let t = with_commas_spec(n);
        let g = grouped(m);
        assert(g == grouped(m / 1000) + seq![','] + three_digits(m % 1000));
        assert(t.subrange(t.len() - 4, t.len() as int) =~= g.subrange(g.len() - 4, g.len() as int));
        assert(g.subrange(g.len() - 4, g.len() as int) =~= seq![','] + three_digits(m % 1000));
        assert(all_digits(t.subrange(t.len() - 3, t.len() as int))) by {
            assert(t.subrange(t.len() - 3, t.len() as int) =~= three_digits(m % 1000));
        }
    }
}

/// Removing the commas from the grouped text of `n` gives its decimal text.
proof fn lemma_grouped_without_commas(n: nat)
    ensures
        without_commas(grouped(n)) == decimal(n),
    decreases n,
{
    lemma_decimal_spells(n);
    if n < 1000 {
        lemma_without_commas_digits(decimal(n));
    } else {
        lemma_grouped_without_commas(n / 1000);
        let k = n % 1000;
        assert(all_digits(three_digits(k)));
        lemma_without_commas_digits(three_digits(k));
        lemma_without_commas_concat(grouped(n / 1000) + seq![','], three_digits(k));
        lemma_without_commas_concat(grouped(n / 1000), seq![',']);
        assert(seq![','].drop_last() =~= Seq::<char>::empty());
        assert(without_commas(Seq::<char>::empty()) == Seq::<char>::empty());
        assert(without_commas(seq![',']) =~= Seq::<char>::empty());
        lemma_decimal_split(n);
        assert(without_commas(grouped(n)) =~= decimal(n));
    }
}

} // verus!

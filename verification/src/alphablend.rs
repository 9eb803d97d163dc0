use vstd::prelude::*;

use crate::aligned_image::ImageModel;
use crate::aligned_image::in_bounds;
use crate::aligned_image::pixel_at;
use crate::aligned_image::pixel_index;
use crate::aligned_image::same_except;
use crate::aligned_image::lemma_index_bounds;
use crate::aligned_image::lemma_index_injective;
use crate::aligned_image::lemma_area_bytes;
use crate::buffer::PixelBytes;
use crate::buffer::buffer_bytes;
use crate::buffer::buffer_zeroed;
use crate::buffer::buffer_from_slice;
use crate::buffer::buffer_alignment;
use crate::buffer::buffer_as_slice;
use crate::buffer::buffer_as_mut_slice;
use crate::pixel::blend_pixel_spec;
use crate::pixel::blend_src_over_dst;
use crate::pixel::blend_rgba;
use crate::pixel::rgba_blend;
use crate::pixel::swap_red_blue;
use crate::pixel::swap_red_blue_bytes;
use crate::pixel::lemma_blend_channel_extremes;
use crate::pixel::lemma_blend_sum_bound;

verus! {

/// The bytes of an RGBA image are four per pixel.
pub open spec fn rgba_wf(m: ImageModel) -> bool {
    &&& m.width * m.height * 4 <= usize::MAX
    &&& m.bytes.len() == m.width * m.height * 4
}

/// An RGBA image in a cache-line aligned buffer, of any width.
pub struct AlignedRgbaImage {
    data: PixelBytes,
    width: u32,
    height: u32,
}

impl View for AlignedRgbaImage {
    type V = ImageModel;

    closed spec fn view(&self) -> ImageModel {
        ImageModel { width: self.width, height: self.height, bytes: buffer_bytes(self.data) }
    }
}

impl AlignedRgbaImage {
    /// The invariant that every image keeps: it holds exactly four bytes per
    /// pixel.
    #[verifier::type_invariant]
    pub open spec fn wf(&self) -> bool {
        rgba_wf(self@)
    }

    /// A black, fully transparent image; its byte count is computed in `u32`.
    pub fn new(width: u32, height: u32) -> (img: Self)
        requires
            width * height * 4 <= u32::MAX,
        ensures
            img@.width == width,
            img@.height == height,
            img@.bytes == Seq::new((width * height * 4) as nat, |i: int| 0u8),
    {
        proof {
            lemma_area_bytes(width, height);
        }
        let len = (width * height * 4) as usize;
        AlignedRgbaImage { data: buffer_zeroed(len), width, height }
    }

    /// Width in pixels.
    pub fn width(&self) -> (w: u32)
        ensures
            w == self@.width,
    {
        self.width
    }

    /// Height in pixels.
    pub fn height(&self) -> (h: u32)
        ensures
            h == self@.height,
    {
        self.height
    }

    /// Byte offset of pixel `(x, y)`, computed in `u32`.
    fn pixel_offset(&self, x: u32, y: u32) -> (off: usize)
        requires
            in_bounds(self@, x as int, y as int),
            self@.width * self@.height * 4 <= u32::MAX,
        ensures
            off == 4 * pixel_index(self@, x as int, y as int),
            off + 4 <= self@.bytes.len(),
    {
        proof {
            use_type_invariant(self);
            lemma_index_bounds(self@, x as int, y as int);
            assert(0 <= y * self.width <= y * self.width + x) by (nonlinear_arith)
                requires
                    0 <= x,
                    0 <= y,
                    0 <= self.width,
            ;
        }
        ((y * self.width + x) * 4) as usize
    }

    /// The four bytes of pixel `(x, y)`.
    pub fn pixel(&self, x: u32, y: u32) -> (p: [u8; 4])
        requires
            in_bounds(self@, x as int, y as int),
            self@.width * self@.height * 4 <= u32::MAX,
        ensures
            p@ == pixel_at(self@, x as int, y as int),
    {
        let i = self.pixel_offset(x, y);
        let s = buffer_as_slice(&self.data);
        let p = [s[i], s[i + 1], s[i + 2], s[i + 3]];
        assert(p@ =~= pixel_at(self@, x as int, y as int));
        p
    }

    /// Overwrites pixel `(x, y)` and leaves every other pixel as it was.
    pub fn set_pixel(&mut self, x: u32, y: u32, p: [u8; 4])
        requires
            in_bounds(old(self)@, x as int, y as int),
            old(self)@.width * old(self)@.height * 4 <= u32::MAX,
        ensures
            final(self)@.width == old(self)@.width,
            final(self)@.height == old(self)@.height,
            pixel_at(final(self)@, x as int, y as int) == p@,
            same_except(old(self)@, final(self)@, x as int, y as int),
    {
        proof {
            use_type_invariant(&*self);
        }
        let ghost before = self@;
        let i = self.pixel_offset(x, y);
        {
            let s = buffer_as_mut_slice(&mut self.data);
            s[i] = p[0];
            s[i + 1] = p[1];
            s[i + 2] = p[2];
            s[i + 3] = p[3];
        }
        let ghost after = self@;
        assert(pixel_at(after, x as int, y as int) =~= p@);
        assert forall|x2: int, y2: int|
            in_bounds(before, x2, y2) && !(x2 == x && y2 == y) implies #[trigger] pixel_at(
            after,
            x2,
            y2,
        ) == pixel_at(before, x2, y2) by {
            lemma_index_injective(before, x as int, y as int, x2, y2);
            lemma_index_bounds(before, x2, y2);
            assert(pixel_at(after, x2, y2) =~= pixel_at(before, x2, y2));
        }
    }

    /// Blends `color` over pixel `(x, y)` with `image::Rgba::blend` when that
    /// pixel lies inside the image, and says whether it did.
    pub fn blend_pixel_checked(&mut self, x: u32, y: u32, color: [u8; 4]) -> (inside: bool)
        requires
            old(self)@.width * old(self)@.height * 4 <= u32::MAX,
        ensures
            inside == in_bounds(old(self)@, x as int, y as int),
            final(self)@.width == old(self)@.width,
            final(self)@.height == old(self)@.height,
            inside ==> pixel_at(final(self)@, x as int, y as int) == rgba_blend(
                pixel_at(old(self)@, x as int, y as int),
                color@,
            ),
            inside ==> same_except(old(self)@, final(self)@, x as int, y as int),
            !inside ==> final(self)@ == old(self)@,
    {
        if x >= self.width || y >= self.height {
            return false;
        }
        let p = self.pixel(x, y);
        self.set_pixel(x, y, blend_rgba(p, color));
        true
    }

    /// An image of the given size from RGBA bytes, with red and blue exchanged
    /// in every pixel (RGBA to BGRA).
    pub fn from_rgba8(width: u32, height: u32, rgba: &[u8]) -> (img: Self)
        requires
            rgba@.len() == width * height * 4,
        ensures
            img@.width == width,
            img@.height == height,
            img@.bytes == swap_red_blue_bytes(rgba@, rgba@.len() as int),
    {
        let mut data = buffer_from_slice(rgba);
        let len = rgba.len();
        proof {
            lemma_area_bytes(width, height);
        }
        {
            let s = buffer_as_mut_slice(&mut data);
            swap_red_blue(s, len);
        }
        AlignedRgbaImage { data, width, height }
    }

    /// The alignment of the image's bytes: they start at an address that is a
    /// multiple of 128, and so of 64 (a cache line).
    pub fn alignment(&self) -> (a: usize)
        ensures
            a == 128,
            a % 64 == 0,
    {
        buffer_alignment(&self.data)
    }

    /// The bytes of the image, four per pixel, row by row.
    pub fn as_bytes(&self) -> (s: &[u8])
        ensures
            s@ == self@.bytes,
    {
        buffer_as_slice(&self.data)
    }
}

/// Pixel `p` (four bytes) of a byte sequence.
pub open spec fn pixel_of(bytes: Seq<u8>, p: int) -> Seq<u8> {
    bytes.subrange(4 * p, 4 * p + 4)
}

/// `dst` after the first eight pixels of `src` are blended over its first eight
/// pixels, all four channels weighted by the source alpha.
pub open spec fn blend_x8_spec(src: Seq<u8>, dst: Seq<u8>) -> Seq<u8> {
    Seq::new(
        dst.len(),
        |i: int|
            if i < 32 {
                blend_pixel_spec(pixel_of(src, i / 4), pixel_of(dst, i / 4))[i % 4]
            } else {
                dst[i]
            },
    )
}

/// Blends the first eight pixels of `src` over the first eight pixels of `dst`
/// (all four channels weighted by the source alpha), skipping the work when all
/// eight source pixels are fully transparent.
pub fn alphablend_x8(src: &[u8], dst: &mut [u8])
    requires
        src@.len() >= 32,
        old(dst)@.len() >= 32,
    ensures
        final(dst)@ == blend_x8_spec(src@, old(dst)@),
{
    let ghost orig = dst@;
    let mut transparent = true;
    let mut p: usize = 0;
    while p < 8
        invariant
            p <= 8,
            src@.len() >= 32,
            transparent == forall|q: int| 0 <= q < p ==> #[trigger] src@[4 * q + 3] == 0,
        decreases 8 - p,
    {
        if src[4 * p + 3] != 0 {
            transparent = false;
        }
        p = p + 1;
    }
    if transparent {
        assert forall|i: int| 0 <= i < 32 implies #[trigger] blend_x8_spec(src@, orig)[i] == orig[i] by {
            let q = i / 4;
            assert(src@[4 * q + 3] == 0);
            let s = pixel_of(src@, q);
            let d = pixel_of(orig, q);
            lemma_blend_channel_extremes(s[0], d[0]);
            lemma_blend_channel_extremes(s[1], d[1]);
            lemma_blend_channel_extremes(s[2], d[2]);
            lemma_blend_channel_extremes(s[3], d[3]);
        }
        assert(dst@ =~= blend_x8_spec(src@, orig));
        return;
    }
    let mut p: usize = 0;
    while p < 8
        invariant
            p <= 8,
            src@.len() >= 32,
            orig.len() >= 32,
            dst@.len() == orig.len(),
            forall|i: int| 0 <= i < 4 * p ==> #[trigger] dst@[i] == blend_x8_spec(src@, orig)[i],
            forall|i: int| 4 * p <= i < dst@.len() ==> #[trigger] dst@[i] == orig[i],
        decreases 8 - p,
    {
        let k = 4 * p;
        let s = [src[k], src[k + 1], src[k + 2], src[k + 3]];
        let d = [dst[k], dst[k + 1], dst[k + 2], dst[k + 3]];
        assert(s@ =~= pixel_of(src@, p as int));
        assert(d@ =~= pixel_of(orig, p as int));
        let b = blend_src_over_dst(s, d);
        dst[k] = b[0];
        dst[k + 1] = b[1];
        dst[k + 2] = b[2];
        dst[k + 3] = b[3];
        assert forall|i: int| k <= i < k + 4 implies #[trigger] dst@[i] == blend_x8_spec(src@, orig)[i] by {
            assert(i / 4 == p);
        }
        p = p + 1;
    }
    assert(dst@ =~= blend_x8_spec(src@, orig));
}

/// Blending eight pixels changes exactly the first 32 bytes: each becomes
/// `(s * a + d * (255 - a)) / 255`, with `a` the alpha byte of the source pixel
/// it belongs to (alpha bytes included); every later byte is kept.
pub proof fn lemma_blend_x8_bytes(src: Seq<u8>, dst: Seq<u8>, i: int)
    requires
        src.len() >= 32,
        dst.len() >= 32,
        0 <= i < dst.len(),
    ensures
        blend_x8_spec(src, dst).len() == dst.len(),
        i < 32 ==> blend_x8_spec(src, dst)[i] == (src[i] * src[i / 4 * 4 + 3] + dst[i] * (255
            - src[i / 4 * 4 + 3])) / 255,
        i >= 32 ==> blend_x8_spec(src, dst)[i] == dst[i],
{
    if i < 32 {
        let p = i / 4;
        assert(pixel_of(src, p)[i % 4] == src[i]);
        assert(pixel_of(dst, p)[i % 4] == dst[i]);
        assert(pixel_of(src, p)[3] == src[i / 4 * 4 + 3]);
        lemma_blend_sum_bound(src[i], dst[i], src[i / 4 * 4 + 3]);
    }
}

} // verus!

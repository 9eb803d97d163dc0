use vstd::prelude::*;

use crate::buffer::PixelBytes;
use crate::buffer::buffer_bytes;
use crate::buffer::buffer_zeroed;
use crate::buffer::buffer_as_slice;
use crate::buffer::buffer_as_mut_slice;
use crate::buffer::buffer_from_slice;
use crate::buffer::buffer_alignment;
use crate::pixel::blend_rgba;
use crate::pixel::rgba_blend;
use crate::pixel::swap_red_blue;
use crate::pixel::swap_red_blue_bytes;
use crate::pixel::fade_into;
use crate::pixel::fade_bytes;
use crate::pixel::swap_red_blue_spec;

verus! {

/// What an image is: its size in pixels and its bytes, four per pixel, row by row.
pub struct ImageModel {
    pub width: u32,
    pub height: u32,
    pub bytes: Seq<u8>,
}

/// The image's size fits the machine, its bytes are exactly four per pixel, and
/// its rows are a whole number of 16-pixel blocks.
pub open spec fn image_wf(m: ImageModel) -> bool {
    &&& m.width % 16 == 0
    &&& m.width * m.height * 4 <= usize::MAX
    &&& m.bytes.len() == m.width * m.height * 4
}

/// `(x, y)` lies inside the image.
pub open spec fn in_bounds(m: ImageModel, x: int, y: int) -> bool {
    0 <= x < m.width && 0 <= y < m.height
}

/// The position of pixel `(x, y)` in row-major order.
pub open spec fn pixel_index(m: ImageModel, x: int, y: int) -> int {
    y * m.width + x
}

/// The four bytes of pixel `(x, y)`.
pub open spec fn pixel_at(m: ImageModel, x: int, y: int) -> Seq<u8> {
    m.bytes.subrange(4 * pixel_index(m, x, y), 4 * pixel_index(m, x, y) + 4)
}

/// Every pixel of `b` other than `(x, y)` is the same as in `a`.
pub open spec fn same_except(a: ImageModel, b: ImageModel, x: int, y: int) -> bool {
    forall|x2: int, y2: int|
        in_bounds(a, x2, y2) && !(x2 == x && y2 == y) ==> #[trigger] pixel_at(b, x2, y2)
            == pixel_at(a, x2, y2)
}

/// A pixel inside the image has a position inside the pixel count.
pub proof fn lemma_index_bounds(m: ImageModel, x: int, y: int)
    requires
        in_bounds(m, x, y),
    ensures
        0 <= pixel_index(m, x, y) < m.width * m.height,
        0 <= 4 * pixel_index(m, x, y),
        4 * pixel_index(m, x, y) + 4 <= m.width * m.height * 4,
{
    let w = m.width as int;
    let h = m.height as int;
    assert(0 <= y * w + x < w * h) by (nonlinear_arith)
        requires
            0 <= x < w,
            0 <= y < h,
    ;
    assert((w * h) * 4 == w * h * 4) by (nonlinear_arith);
}

/// The byte count of a `width x height` picture of four-byte pixels is a whole
/// number of pixels and grouping its product either way gives the same count.
pub proof fn lemma_area_bytes(width: u32, height: u32)
    ensures
        0 <= width * height,
        width * height * 4 == (width * height) * 4,
        (width * height * 4) % 4 == 0,
{
    assert(0 <= width * height) by (nonlinear_arith);
    assert(width * height * 4 == (width * height) * 4) by (nonlinear_arith);
}

/// Two different pixels inside the image have different positions.
pub proof fn lemma_index_injective(m: ImageModel, x: int, y: int, x2: int, y2: int)
    requires
        in_bounds(m, x, y),
        in_bounds(m, x2, y2),
        !(x == x2 && y == y2),
    ensures
        pixel_index(m, x, y) != pixel_index(m, x2, y2),
{
    let w = m.width as int;
    if y < y2 {
        assert(y * w + x < y2 * w + x2) by (nonlinear_arith)
            requires
                0 <= x < w,
                0 <= x2,
                y < y2,
        ;
    } else if y2 < y {
        assert(y2 * w + x2 < y * w + x) by (nonlinear_arith)
            requires
                0 <= x2 < w,
                0 <= x,
                y2 < y,
        ;
    }
}

/// An image built from RGBA bytes holds, at every pixel, the RGBA pixel with red
/// and blue exchanged.
pub proof fn lemma_swapped_pixel(m: ImageModel, rgba: Seq<u8>, x: int, y: int)
    requires
        image_wf(m),
        rgba.len() == m.bytes.len(),
        m.bytes == swap_red_blue_bytes(rgba, rgba.len() as int),
        in_bounds(m, x, y),
    ensures
        pixel_at(m, x, y) == swap_red_blue_spec(
            rgba.subrange(4 * pixel_index(m, x, y), 4 * pixel_index(m, x, y) + 4),
        ),
{
    lemma_index_bounds(m, x, y);
    let i = 4 * pixel_index(m, x, y);
    assert(i % 4 == 0);
    assert(pixel_at(m, x, y) =~= swap_red_blue_spec(rgba.subrange(i, i + 4)));
}

/// A frame buffer of 8-bit, four-channel pixels whose rows are a multiple of 16
/// pixels wide, held in a cache-line aligned buffer.
pub struct AlignedImage {
    data: PixelBytes,
    width: u32,
    height: u32,
}

impl View for AlignedImage {
    type V = ImageModel;

    closed spec fn view(&self) -> ImageModel {
        ImageModel { width: self.width, height: self.height, bytes: buffer_bytes(self.data) }
    }
}

impl AlignedImage {
    /// The invariant that every image keeps: its width is a whole number of
    /// 16-pixel blocks and it holds exactly four bytes per pixel.
    #[verifier::type_invariant]
    pub open spec fn wf(&self) -> bool {
        image_wf(self@)
    }

    /// A black, fully transparent image of the given size.
    pub fn new(width: u32, height: u32) -> (img: Self)
        requires
            width % 16 == 0,
            width * height * 4 <= usize::MAX,
        ensures
            img@.width == width,
            img@.height == height,
            img@.bytes == Seq::new((width * height * 4) as nat, |i: int| 0u8),
    {
        proof {
            lemma_area_bytes(width, height);
        }
        let len = (width as usize) * (height as usize) * 4;
        AlignedImage { data: buffer_zeroed(len), width, height }
    }

    /// Width in pixels.
    pub fn width(&self) -> (w: u32)
        ensures
            w == self@.width,
    {
        self.width
    }

    /// Height in pixels.
    pub fn height(&self) -> (h: u32)
        ensures
            h == self@.height,
    {
        self.height
    }

    /// Bytes per row.
    pub fn stride(&self) -> (s: u32)
        requires
            self@.width * 4 <= u32::MAX,
        ensures
            s == self@.width * 4,
    {
        self.width * 4
    }

    /// Byte offset of pixel `(x, y)`.
    fn get_pixel_offset(&self, x: u32, y: u32) -> (off: usize)
        requires
            in_bounds(self@, x as int, y as int),
        ensures
            off == 4 * pixel_index(self@, x as int, y as int),
            off + 4 <= self@.bytes.len(),
    {
        proof {
            use_type_invariant(self);
            lemma_index_bounds(self@, x as int, y as int);
        }
        ((y as usize * self.width as usize) + x as usize) * 4
    }

    /// The four bytes of pixel `(x, y)`.
    pub fn pixel(&self, x: u32, y: u32) -> (p: [u8; 4])
        requires
            in_bounds(self@, x as int, y as int),
        ensures
            p@ == pixel_at(self@, x as int, y as int),
    {
        let i = self.get_pixel_offset(x, y);
        let s = buffer_as_slice(&self.data);
        let p = [s[i], s[i + 1], s[i + 2], s[i + 3]];
        assert(p@ =~= pixel_at(self@, x as int, y as int));
        p
    }

    /// Overwrites pixel `(x, y)` and leaves every other pixel as it was.
    pub fn set_pixel(&mut self, x: u32, y: u32, p: [u8; 4])
        requires
            in_bounds(old(self)@, x as int, y as int),
        ensures
            final(self)@.width == old(self)@.width,
            final(self)@.height == old(self)@.height,
            pixel_at(final(self)@, x as int, y as int) == p@,
            same_except(old(self)@, final(self)@, x as int, y as int),
    {
        proof {
            use_type_invariant(&*self);
        }
        let ghost before = self@;
        let i = self.get_pixel_offset(x, y);
        {
            let s = buffer_as_mut_slice(&mut self.data);
            s[i] = p[0];
            s[i + 1] = p[1];
            s[i + 2] = p[2];
            s[i + 3] = p[3];
        }
        let ghost after = self@;
        assert(after.bytes.len() == before.bytes.len());
        assert(pixel_at(after, x as int, y as int) =~= p@);
        assert forall|x2: int, y2: int|
            in_bounds(before, x2, y2) && !(x2 == x && y2 == y) implies #[trigger] pixel_at(
            after,
            x2,
            y2,
        ) == pixel_at(before, x2, y2) by {
            lemma_index_injective(before, x as int, y as int, x2, y2);
            lemma_index_bounds(before, x2, y2);
            assert(pixel_at(after, x2, y2) =~= pixel_at(before, x2, y2));
        }
    }

    /// Blends `color` over pixel `(x, y)` with `image::Rgba::blend`.
    pub fn blend_pixel(&mut self, x: u32, y: u32, color: [u8; 4])
        requires
            in_bounds(old(self)@, x as int, y as int),
        ensures
            final(self)@.width == old(self)@.width,
            final(self)@.height == old(self)@.height,
            pixel_at(final(self)@, x as int, y as int) == rgba_blend(
                pixel_at(old(self)@, x as int, y as int),
                color@,
            ),
            same_except(old(self)@, final(self)@, x as int, y as int),
    {
        let p = self.pixel(x, y);
        let q = blend_rgba(p, color);
        self.set_pixel(x, y, q);
    }

    /// Blends `color` over pixel `(x, y)` when that pixel lies inside the image,
    /// and says whether it did; outside the image nothing changes.
    pub fn blend_pixel_checked(&mut self, x: u32, y: u32, color: [u8; 4]) -> (inside: bool)
        ensures
            inside == in_bounds(old(self)@, x as int, y as int),
            final(self)@.width == old(self)@.width,
            final(self)@.height == old(self)@.height,
            inside ==> pixel_at(final(self)@, x as int, y as int) == rgba_blend(
                pixel_at(old(self)@, x as int, y as int),
                color@,
            ),
            inside ==> same_except(old(self)@, final(self)@, x as int, y as int),
            !inside ==> final(self)@ == old(self)@,
    {
        if x >= self.width || y >= self.height {
            return false;
        }
        self.blend_pixel(x, y, color);
        true
    }

    /// An image of the given size from RGBA bytes, four per pixel, row by row,
    /// with red and blue exchanged in every pixel (BGRA, the order the display
    /// expects).
    pub fn from_rgba8(width: u32, height: u32, rgba: &[u8]) -> (img: Self)
        requires
            width % 16 == 0,
            rgba@.len() == width * height * 4,
        ensures
            img@.width == width,
            img@.height == height,
            img@.bytes == swap_red_blue_bytes(rgba@, rgba@.len() as int),
    {
        let mut data = buffer_from_slice(rgba);
        let n = rgba.len();
        proof {
            lemma_area_bytes(width, height);
        }
        {
            let s = buffer_as_mut_slice(&mut data);
            swap_red_blue(s, n);
        }
        AlignedImage { data, width, height }
    }

    /// Overwrites this image with the pixels of `src` whose colour channels are
    /// scaled by `alpha`, every pixel fully opaque.
    pub fn fade_from(&mut self, src: &AlignedImage, alpha: u8)
        requires
            src@.bytes.len() == old(self)@.bytes.len(),
        ensures
            final(self)@.width == old(self)@.width,
            final(self)@.height == old(self)@.height,
            final(self)@.bytes == fade_bytes(src@.bytes, alpha),
    {
        proof {
            use_type_invariant(&*self);
            use_type_invariant(src);
            lemma_area_bytes(src@.width, src@.height);
        }
        let s = buffer_as_slice(&src.data);
        let d = buffer_as_mut_slice(&mut self.data);
        fade_into(s, d, alpha);
    }

    /// Overwrites this image with the bytes of `src`.
    pub fn copy_from(&mut self, src: &AlignedImage)
        requires
            src@.bytes.len() == old(self)@.bytes.len(),
        ensures
            final(self)@.width == old(self)@.width,
            final(self)@.height == old(self)@.height,
            final(self)@.bytes == src@.bytes,
    {
        proof {
            use_type_invariant(&*self);
        }
        let s = buffer_as_slice(&src.data);
        let d = buffer_as_mut_slice(&mut self.data);
        let n = s.len();
        let mut i: usize = 0;
        while i < n
            invariant
                n == s@.len(),
                d@.len() == n,
                i <= n,
                forall|j: int| 0 <= j < i ==> #[trigger] d@[j] == s@[j],
            decreases n - i,
        {
            d[i] = s[i];
            i = i + 1;
        }
        assert(d@ =~= s@);
    }

    /// Sets every byte of the image to zero.
    pub fn clear(&mut self)
        ensures
            final(self)@.width == old(self)@.width,
            final(self)@.height == old(self)@.height,
            final(self)@.bytes == Seq::new(old(self)@.bytes.len(), |i: int| 0u8),
    {
        proof {
            use_type_invariant(&*self);
        }
        let d = buffer_as_mut_slice(&mut self.data);
        let n = d.len();
        let mut i: usize = 0;
        while i < n
            invariant
                d@.len() == n,
                i <= n,
                forall|j: int| 0 <= j < i ==> #[trigger] d@[j] == 0u8,
            decreases n - i,
        {
            d[i] = 0;
            i = i + 1;
        }
        assert(d@ =~= Seq::new(n as nat, |i: int| 0u8));
    }

    /// The alignment of the image's bytes: they start at an address that is a
    /// multiple of 128, and so of 64 (a cache line).
    pub fn alignment(&self) -> (a: usize)
        ensures
            a == 128,
            a % 64 == 0,
    {
        buffer_alignment(&self.data)
    }

    /// The bytes of the image, four per pixel, row by row.
    pub fn as_bytes(&self) -> (s: &[u8])
        ensures
            s@ == self@.bytes,
    {
        buffer_as_slice(&self.data)
    }
}

} // verus!

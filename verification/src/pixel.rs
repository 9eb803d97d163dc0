use vstd::prelude::*;
use image::Pixel;
use image::Rgba;

verus! {

/// Number of bytes in one pixel (four 8-bit channels).
pub const PIXEL_BYTES: usize = 4;

/// Index of the alpha channel inside a pixel.
pub const ALPHA: usize = 3;

/// `x / 255`, rounded down.
pub open spec fn div255(x: int) -> int {
    x / 255
}

/// One channel of source-over blending: `(src * a + dst * (255 - a)) / 255`.
pub open spec fn blend_channel_spec(src: u8, dst: u8, alpha: u8) -> u8 {
    div255(src * alpha + dst * (255 - alpha)) as u8
}

/// One channel scaled by an alpha value: `value * a / 255`.
pub open spec fn scale_channel_spec(value: u8, alpha: u8) -> u8 {
    div255(value * alpha) as u8
}

/// Source-over blending of all four channels of `src` onto `dst`, weighted by the
/// alpha channel of `src`.
pub open spec fn blend_pixel_spec(src: Seq<u8>, dst: Seq<u8>) -> Seq<u8> {
    seq![
        blend_channel_spec(src[0], dst[0], src[3]),
        blend_channel_spec(src[1], dst[1], src[3]),
        blend_channel_spec(src[2], dst[2], src[3]),
        blend_channel_spec(src[3], dst[3], src[3]),
    ]
}

/// The same pixel with its alpha channel set to fully opaque.
pub open spec fn opaque_spec(p: Seq<u8>) -> Seq<u8> {
    seq![p[0], p[1], p[2], 255u8]
}

/// Source-over blending onto an opaque destination: the colour channels are
/// blended and the result is fully opaque.
pub open spec fn blend_opaque_spec(src: Seq<u8>, dst: Seq<u8>) -> Seq<u8> {
    opaque_spec(blend_pixel_spec(src, dst))
}

/// The colour channels of `src` scaled by `alpha`, on a fully opaque pixel.
pub open spec fn fade_pixel_spec(src: Seq<u8>, alpha: u8) -> Seq<u8> {
    seq![
        scale_channel_spec(src[0], alpha),
        scale_channel_spec(src[1], alpha),
        scale_channel_spec(src[2], alpha),
        255u8,
    ]
}

/// The pixel with its first and third channels exchanged (RGBA <-> BGRA).
pub open spec fn swap_red_blue_spec(p: Seq<u8>) -> Seq<u8> {
    seq![p[2], p[1], p[0], p[3]]
}

/// Divides a 16-bit value by 255 with the shift-and-add sequence
/// `(x + (x >> 8) + 1) >> 8`, which equals `x / 255` on this range.
pub fn div_255(x: u16) -> (r: u16)
    requires
        x < 65280,
    ensures
        r == div255(x as int),
{
    assert(x >> 8u16 <= 254u16) by (bit_vector)
        requires
            x < 65280u16,
    ;
    assert((((x + (x >> 8u16)) as u16 + 1u16) as u16 >> 8u16) == x / 255) by (bit_vector)
        requires
            x < 65280u16,
    ;
    (x + (x >> 8) + 1) >> 8
}

/// Bounds on the weighted sum that the blend divides.
pub proof fn lemma_blend_sum_bound(src: u8, dst: u8, alpha: u8)
    ensures
        0 <= src * alpha + dst * (255 - alpha) <= 65025,
        0 <= div255(src * alpha + dst * (255 - alpha)) <= 255,
{
    assert(0 <= src * alpha + dst * (255 - alpha) <= 65025) by (nonlinear_arith)
        requires
            src <= 255,
            dst <= 255,
            alpha <= 255,
    ;
}

/// Bounds on a channel scaled by alpha.
pub proof fn lemma_scale_bound(value: u8, alpha: u8)
    ensures
        0 <= value * alpha <= 65025,
        0 <= div255(value * alpha) <= 255,
{
    assert(0 <= value * alpha <= 65025) by (nonlinear_arith)
        requires
            value <= 255,
            alpha <= 255,
    ;
}

/// One channel of source-over blending, computed in 16-bit arithmetic.
pub fn blend_channel(src: u8, dst: u8, alpha: u8) -> (r: u8)
    ensures
        r == blend_channel_spec(src, dst, alpha),
{
    proof {
        lemma_blend_sum_bound(src, dst, alpha);
    }
    let s = (src as u16) * (alpha as u16);
    let d = (dst as u16) * (255 - alpha as u16);
    div_255(s + d) as u8
}

/// One channel scaled by alpha, computed in 16-bit arithmetic.
pub fn scale_channel(value: u8, alpha: u8) -> (r: u8)
    ensures
        r == scale_channel_spec(value, alpha),
{
    proof {
        lemma_scale_bound(value, alpha);
    }
    div_255((value as u16) * (alpha as u16)) as u8
}

/// Blends `src` over `dst`, all four channels weighted by the alpha of `src`.
pub fn blend_src_over_dst(src: [u8; 4], dst: [u8; 4]) -> (r: [u8; 4])
    ensures
        r@ == blend_pixel_spec(src@, dst@),
{
    let a = src[3];
    let r = [
        blend_channel(src[0], dst[0], a),
        blend_channel(src[1], dst[1], a),
        blend_channel(src[2], dst[2], a),
        blend_channel(src[3], dst[3], a),
    ];
    assert(r@ =~= blend_pixel_spec(src@, dst@));
    r
}

/// Blends `src` over `dst` and marks the result fully opaque.
pub fn blend_opaque(src: [u8; 4], dst: [u8; 4]) -> (r: [u8; 4])
    ensures
        r@ == blend_opaque_spec(src@, dst@),
{
    let b = blend_src_over_dst(src, dst);
    let r = [b[0], b[1], b[2], 255u8];
    assert(r@ =~= blend_opaque_spec(src@, dst@));
    r
}

/// Scales the colour channels of `src` by `alpha` and marks the result fully opaque.
pub fn fade_pixel(src: [u8; 4], alpha: u8) -> (r: [u8; 4])
    ensures
        r@ == fade_pixel_spec(src@, alpha),
{
    let r = [
        scale_channel(src[0], alpha),
        scale_channel(src[1], alpha),
        scale_channel(src[2], alpha),
        255u8,
    ];
    assert(r@ =~= fade_pixel_spec(src@, alpha));
    r
}

/// A channel blended with a fully opaque source is the source channel, and with a
/// fully transparent source it is the destination channel.
pub proof fn lemma_blend_channel_extremes(src: u8, dst: u8)
    ensures
        blend_channel_spec(src, dst, 255) == src,
        blend_channel_spec(src, dst, 0) == dst,
{
}

/// A blended channel lies between the destination and the source channel.
pub proof fn lemma_blend_channel_between(src: u8, dst: u8, alpha: u8)
    ensures
        src <= dst ==> src <= blend_channel_spec(src, dst, alpha) <= dst,
        dst <= src ==> dst <= blend_channel_spec(src, dst, alpha) <= src,
{
    lemma_blend_sum_bound(src, dst, alpha);
    let s = src * alpha + dst * (255 - alpha);
    if src <= dst {
        assert(src * 255 <= s <= dst * 255) by (nonlinear_arith)
            requires
                src <= dst,
                s == src * alpha + dst * (255 - alpha),
                0 <= alpha <= 255,
        ;
    } else {
        assert(dst * 255 <= s <= src * 255) by (nonlinear_arith)
            requires
                dst <= src,
                s == src * alpha + dst * (255 - alpha),
                0 <= alpha <= 255,
        ;
    }
}

/// Scaling by a fully opaque alpha keeps the channel; by zero it clears it.
pub proof fn lemma_scale_channel_extremes(value: u8)
    ensures
        scale_channel_spec(value, 255) == value,
        scale_channel_spec(value, 0) == 0,
{
}

/// Exchanging red and blue twice gives back the pixel.
pub proof fn lemma_swap_red_blue_involution(p: Seq<u8>)
    requires
        p.len() == 4,
    ensures
        swap_red_blue_spec(swap_red_blue_spec(p)) == p,
{
    assert(swap_red_blue_spec(swap_red_blue_spec(p)) =~= p);
}

/// What `image::Rgba::<u8>::blend` makes of destination pixel `dst` when source
/// pixel `src` is blended over it.
pub uninterp spec fn rgba_blend(dst: Seq<u8>, src: Seq<u8>) -> Seq<u8>;

/// Each colour channel of `p` lies within one unit of the 8-bit source-over
/// blend of `src` over `dst`, `(s * a + d * (255 - a)) / 255` rounded down.
pub open spec fn near_blend(src: Seq<u8>, dst: Seq<u8>, p: Seq<u8>) -> bool {
    &&& -1 <= p[0] - blend_channel_spec(src[0], dst[0], src[3]) <= 1
    &&& -1 <= p[1] - blend_channel_spec(src[1], dst[1], src[3]) <= 1
    &&& -1 <= p[2] - blend_channel_spec(src[2], dst[2], src[3]) <= 1
}

/// Calls `<image::Rgba<u8> as image::Pixel>::blend`, the crate's floating-point
/// source-over compositing. Its result is named by `rgba_blend`; its source also
/// shows that a fully transparent source leaves the destination as it is and a
/// fully opaque source replaces it. Over a fully opaque destination the crate
/// computes each colour channel as `(s * a + d * (255 - a)) / 255` in `f32`
/// (the final alpha is 1 up to rounding) and truncates: the float error is far
/// below the `1 / 255` gap between the exact value and the next integer, so
/// each colour channel lies within one unit of that value rounded down.
#[verifier::external_body]
pub(crate) fn blend_rgba(dst: [u8; 4], src: [u8; 4]) -> (r: [u8; 4])
    ensures
        r@ == rgba_blend(dst@, src@),
        src[3] == 0 ==> r == dst,
        src[3] == 255 ==> r == src,
        dst[3] == 255 ==> near_blend(src@, dst@, r@),
{
    let mut pixel = Rgba(dst);
    pixel.blend(&Rgba(src));
    pixel.0
}

/// Byte `i` of a buffer after the first and third channel of each pixel are
/// exchanged: the index of the byte it came from.
pub open spec fn swap_index(i: int) -> int {
    if i % 4 == 0 {
        i + 2
    } else if i % 4 == 2 {
        i - 2
    } else {
        i
    }
}

/// `bytes` with red and blue exchanged in every pixel that lies wholly inside the
/// first `n` bytes.
pub open spec fn swap_red_blue_bytes(bytes: Seq<u8>, n: int) -> Seq<u8> {
    Seq::new(bytes.len(), |i: int| if i < n { bytes[swap_index(i)] } else { bytes[i] })
}

/// Exchanges the first and third byte of every four-byte pixel in `s[..n]`.
pub fn swap_red_blue(s: &mut [u8], n: usize)
    requires
        n % 4 == 0,
        n <= old(s)@.len(),
    ensures
        final(s)@ == swap_red_blue_bytes(old(s)@, n as int),
{
    let ghost orig = s@;
    let mut k: usize = 0;
    while k < n
        invariant
            k % 4 == 0,
            k <= n,
            n % 4 == 0,
            n <= orig.len(),
            s@.len() == orig.len(),
            forall|i: int| 0 <= i < k ==> #[trigger] s@[i] == orig[swap_index(i)],
            forall|i: int| k <= i < s@.len() ==> #[trigger] s@[i] == orig[i],
        decreases n - k,
    {
        let b = s[k];
        let r = s[k + 2];
        s[k] = r;
        s[k + 2] = b;
        k = k + 4;
    }
    assert(s@ =~= swap_red_blue_bytes(orig, n as int));
}

/// `src` with its colour channels scaled by `alpha` and every pixel made opaque.
pub open spec fn fade_bytes(src: Seq<u8>, alpha: u8) -> Seq<u8> {
    Seq::new(
        src.len(),
        |i: int| if i % 4 == 3 { 255u8 } else { scale_channel_spec(src[i], alpha) },
    )
}

/// Writes into `dst` the pixels of `src` with their colour channels scaled by
/// `alpha`, every pixel fully opaque.
pub fn fade_into(src: &[u8], dst: &mut [u8], alpha: u8)
    requires
        src@.len() == old(dst)@.len(),
        src@.len() % 4 == 0,
    ensures
        final(dst)@ == fade_bytes(src@, alpha),
{
    let n = src.len();
    let mut k: usize = 0;
    while k < n
        invariant
            k % 4 == 0,
            k <= n,
            n == src@.len(),
            n % 4 == 0,
            dst@.len() == n,
            forall|i: int| 0 <= i < k ==> #[trigger] dst@[i] == fade_bytes(src@, alpha)[i],
        decreases n - k,
    {
        let p = fade_pixel([src[k], src[k + 1], src[k + 2], src[k + 3]], alpha);
        dst[k] = p[0];
        dst[k + 1] = p[1];
        dst[k + 2] = p[2];
        dst[k + 3] = p[3];
        assert((k + 3) % 4 == 3);
        k = k + 4;
    }
    assert(dst@ =~= fade_bytes(src@, alpha));
}

/// Exchanging red and blue twice, over the same prefix, gives back the bytes.
pub proof fn lemma_swap_red_blue_bytes_involution(bytes: Seq<u8>, n: int)
    requires
        n % 4 == 0,
        0 <= n <= bytes.len(),
    ensures
        swap_red_blue_bytes(swap_red_blue_bytes(bytes, n), n) == bytes,
{
    let once = swap_red_blue_bytes(bytes, n);
    assert forall|i: int| 0 <= i < bytes.len() implies #[trigger] swap_red_blue_bytes(once, n)[i]
        == bytes[i] by {
        if i < n {
            assert(0 <= swap_index(i) < n);
            assert(swap_index(swap_index(i)) == i);
        }
    }
    assert(swap_red_blue_bytes(once, n) =~= bytes);
}

/// Fading with full opacity keeps every colour channel, and with zero opacity
/// clears them; either way every alpha channel becomes opaque.
pub proof fn lemma_fade_bytes_extremes(src: Seq<u8>)
    ensures
        forall|i: int|
            0 <= i < src.len() ==> #[trigger] fade_bytes(src, 255)[i] == (if i % 4 == 3 {
                255u8
            } else {
                src[i]
            }),
        forall|i: int|
            0 <= i < src.len() ==> #[trigger] fade_bytes(src, 0)[i] == (if i % 4 == 3 {
                255u8
            } else {
                0u8
            }),
{
}

/// Blending a fully opaque source over any pixel gives the source, opaque.
pub proof fn lemma_blend_opaque_of_opaque_source(src: Seq<u8>, dst: Seq<u8>)
    requires
        src.len() == 4,
        src[3] == 255,
    ensures
        blend_opaque_spec(src, dst) == src,
{
    assert(blend_opaque_spec(src, dst) =~= src);
}

/// Blending a fully transparent source over a pixel keeps its colour channels
/// and makes it opaque.
pub proof fn lemma_blend_opaque_of_transparent_source(src: Seq<u8>, dst: Seq<u8>)
    requires
        src.len() == 4,
        dst.len() == 4,
        src[3] == 0,
    ensures
        blend_opaque_spec(src, dst) == opaque_spec(dst),
{
    assert(blend_opaque_spec(src, dst) =~= opaque_spec(dst));
}

/// Exchanging red and blue over the first `n` bytes swaps bytes `4k` and
/// `4k + 2` of every pixel there, keeps bytes `4k + 1` and `4k + 3`, and keeps
/// every byte from `n` on.
pub proof fn lemma_swap_red_blue_bytes_layout(bytes: Seq<u8>, n: int, i: int)
    requires
        n % 4 == 0,
        0 <= n <= bytes.len(),
        0 <= i < bytes.len(),
    ensures
        swap_red_blue_bytes(bytes, n).len() == bytes.len(),
        i < n && i % 4 == 0 ==> swap_red_blue_bytes(bytes, n)[i] == bytes[i + 2],
        i < n && i % 4 == 2 ==> swap_red_blue_bytes(bytes, n)[i] == bytes[i - 2],
        i < n && (i % 4 == 1 || i % 4 == 3) ==> swap_red_blue_bytes(bytes, n)[i] == bytes[i],
        i >= n ==> swap_red_blue_bytes(bytes, n)[i] == bytes[i],
{
}

/// Fading scales each colour byte by the opacity, `v * alpha / 255` rounded
/// down, and sets every alpha byte (every fourth, from byte 3) to 255.
pub proof fn lemma_fade_bytes_formula(src: Seq<u8>, alpha: u8, i: int)
    requires
        0 <= i < src.len(),
    ensures
        fade_bytes(src, alpha).len() == src.len(),
        i % 4 == 3 ==> fade_bytes(src, alpha)[i] == 255,
        i % 4 != 3 ==> fade_bytes(src, alpha)[i] == src[i] * alpha / 255,
{
    lemma_scale_bound(src[i], alpha);
}

} // verus!

use vstd::prelude::*;
use image::DynamicImage;
use image::ImageError;
use image::RgbaImage;
use image::imageops::FilterType;

use crate::aligned_image::AlignedImage;
use crate::alphablend::AlignedRgbaImage;
use crate::pixel::swap_red_blue_bytes;

verus! {

#[verifier::external_type_specification]
#[verifier::external_body]
pub struct ExImageError(ImageError);

/// An 8-bit RGBA picture: its size and its bytes, four per pixel, row by row.
pub struct RgbaPixels {
    pub width: u32,
    pub height: u32,
    pub bytes: Vec<u8>,
}

/// What `image::load_from_memory` decodes from `bytes`, converted with
/// `DynamicImage::into_rgba8`: width, height and bytes, or nothing when the bytes
/// are not a picture the crate can read.
pub uninterp spec fn decoded_rgba8(bytes: Seq<u8>) -> Option<(u32, u32, Seq<u8>)>;

/// Calls `image::load_from_memory` (format guessed from the bytes) and converts
/// the decoded picture with `into_rgba8`. The result is named by
/// `decoded_rgba8`; the error is the crate's. The crate's decoders fill a buffer
/// of exactly four bytes per pixel once converted to 8-bit RGBA.
#[verifier::external_body]
pub(crate) fn load_rgba8(bytes: &[u8]) -> (r: Result<RgbaPixels, ImageError>)
    ensures
        r is Ok <==> decoded_rgba8(bytes@) is Some,
        r matches Ok(px) ==> decoded_rgba8(bytes@) == Some((px.width, px.height, px.bytes@)),
        r matches Ok(px) ==> px.bytes@.len() == px.width * px.height * 4,
{
    let img: RgbaImage = image::load_from_memory(bytes)?.into_rgba8();
    let (width, height) = img.dimensions();
    Ok(RgbaPixels { width, height, bytes: img.into_raw() })
}

#[verifier::external_type_specification]
#[verifier::external_body]
pub struct ExDynamicImage(DynamicImage);

/// A picture as the image crate decoded it, kept with the bytes it was decoded
/// from and its size. Only `load_picture` makes one, so `image` is always what
/// the crate decodes from `source`.
struct DecodedPicture<'a> {
    source: &'a [u8],
    image: DynamicImage,
    width: u32,
    height: u32,
}

/// Calls `image::load_from_memory` (format guessed from the bytes) and reads the
/// picture's size with `DynamicImage::width` and `height`. It succeeds exactly
/// when `decoded_rgba8` does, with the same size (conversion to RGBA keeps it).
#[verifier::external_body]
fn load_picture<'a>(bytes: &'a [u8]) -> (r: Result<DecodedPicture<'a>, ImageError>)
    ensures
        r is Ok <==> decoded_rgba8(bytes@) is Some,
        r matches Ok(p) ==> p.source@ == bytes@ && p.width == decoded_rgba8(bytes@).unwrap().0
            && p.height == decoded_rgba8(bytes@).unwrap().1,
{
    let image = image::load_from_memory(bytes)?;
    let (width, height) = (image.width(), image.height());
    Ok(DecodedPicture { source: bytes, image, width, height })
}

/// What `image::load_from_memory` decodes from `bytes`, resized with
/// `DynamicImage::resize_to_fill` (Lanczos3 filter) to `nwidth x nheight` and
/// then converted with `into_rgba8`: width, height and bytes.
pub uninterp spec fn filled_rgba8(bytes: Seq<u8>, nwidth: u32, nheight: u32) -> (u32, u32, Seq<u8>);

/// The scaled size that `resize_to_fill` computes before cropping stays below
/// `0xffff_0000` pixels on both sides. Then the crate's floating-point scale
/// lands on the target exactly and the crop leaves `nwidth x nheight`; for a
/// 2560 x 1600 target this holds unless one side of the picture is over a
/// million times the other.
pub open spec fn fill_in_range(width: u32, height: u32, nwidth: u32, nheight: u32) -> bool {
    &&& width * nheight <= 0xffff_0000 * height
    &&& height * nwidth <= 0xffff_0000 * width
}

/// Calls `DynamicImage::resize_to_fill` with the Lanczos3 filter on the decoded
/// picture, then converts the result with `into_rgba8`. The result is named by
/// `filled_rgba8`; it holds four bytes per pixel, and is exactly
/// `nwidth x nheight` when `fill_in_range` holds (the crate scales so that
/// both sides cover the target, then crops the middle).
#[verifier::external_body]
fn fill_picture(p: &DecodedPicture, nwidth: u32, nheight: u32) -> (r: RgbaPixels)
    requires
        p.width > 0,
        p.height > 0,
        nwidth > 0,
        nheight > 0,
    ensures
        (r.width, r.height, r.bytes@) == filled_rgba8(p.source@, nwidth, nheight),
        r.bytes@.len() == r.width * r.height * 4,
        fill_in_range(p.width, p.height, nwidth, nheight) ==> r.width == nwidth && r.height
            == nheight,
{
    let img: RgbaImage = p.image.resize_to_fill(nwidth, nheight, FilterType::Lanczos3).into_rgba8();
    let (width, height) = img.dimensions();
    RgbaPixels { width, height, bytes: img.into_raw() }
}

/// Why a picture could not become an `AlignedImage`.
#[derive(Debug)]
pub enum DecodeError {
    /// The image crate could not decode the bytes.
    Image(ImageError),
    /// The picture, or the size to fill, has no pixels.
    Empty,
    /// The picture's width is not a multiple of 16 pixels.
    BadWidth(u32),
}

/// The image that a decoded RGBA picture becomes: red and blue exchanged.
pub open spec fn image_of(d: (u32, u32, Seq<u8>)) -> (u32, u32, Seq<u8>) {
    (d.0, d.1, swap_red_blue_bytes(d.2, d.2.len() as int))
}

/// The bytes of a picture are four per pixel.
pub open spec fn four_per_pixel(d: (u32, u32, Seq<u8>)) -> bool {
    d.2.len() == d.0 * d.1 * 4
}

/// Turns an RGBA picture into an `AlignedImage`, or says why it cannot: its
/// width must be a multiple of 16.
fn aligned_from_pixels(px: RgbaPixels) -> (r: Result<AlignedImage, DecodeError>)
    requires
        px.bytes@.len() == px.width * px.height * 4,
    ensures
        px.width % 16 == 0 <==> r is Ok,
        px.width % 16 != 0 ==> (r matches Err(DecodeError::BadWidth(w)) && w == px.width),
        r matches Ok(img) ==> picture_of(img) == image_of(
            (px.width, px.height, px.bytes@),
        ),
{
    if px.width % 16 != 0 {
        return Err(DecodeError::BadWidth(px.width));
    }
    Ok(AlignedImage::from_rgba8(px.width, px.height, px.bytes.as_slice()))
}

/// An image's size and bytes as one value.
pub open spec fn picture_of(img: AlignedImage) -> (u32, u32, Seq<u8>) {
    (img@.width, img@.height, img@.bytes)
}

/// The decoded picture and the target size both have pixels.
pub open spec fn has_pixels(d: (u32, u32, Seq<u8>), width: u32, height: u32) -> bool {
    d.0 > 0 && d.1 > 0 && width > 0 && height > 0
}

impl AlignedImage {
    /// Decodes a picture (any format the image crate reads) into an
    /// `AlignedImage` with its red and blue channels exchanged (RGBA to BGRA).
    /// The picture's width must be a multiple of 16 pixels.
    pub fn decode(bytes: &[u8]) -> (r: Result<AlignedImage, DecodeError>)
        ensures
            decoded_rgba8(bytes@) is None <==> r matches Err(DecodeError::Image(_)),
            decoded_rgba8(bytes@) is Some ==> four_per_pixel(decoded_rgba8(bytes@).unwrap()),
            decoded_rgba8(bytes@) is Some ==> (r is Ok <==> decoded_rgba8(bytes@).unwrap().0 % 16
                == 0),
            decoded_rgba8(bytes@) is Some && decoded_rgba8(bytes@).unwrap().0 % 16 != 0 ==> (r matches Err(
                DecodeError::BadWidth(w),
            ) && w == decoded_rgba8(bytes@).unwrap().0),
            r matches Ok(img) ==> (picture_of(img) == image_of(
                decoded_rgba8(bytes@).unwrap(),
            )),
    {
        match load_rgba8(bytes) {
            Err(e) => Err(DecodeError::Image(e)),
            Ok(px) => aligned_from_pixels(px),
        }
    }

    /// Decodes a picture, resizes it to fill `width x height` exactly (cropping
    /// what overflows, Lanczos3 filter), converts it to 8-bit RGBA and turns it
    /// into an `AlignedImage` with its red and blue channels exchanged (RGBA to
    /// BGRA).
    pub fn decode_to_fill(bytes: &[u8], width: u32, height: u32) -> (r: Result<
        AlignedImage,
        DecodeError,
    >)
        ensures
            decoded_rgba8(bytes@) is None <==> r matches Err(DecodeError::Image(_)),
            decoded_rgba8(bytes@) is Some && !has_pixels(decoded_rgba8(bytes@).unwrap(), width, height)
                ==> r matches Err(DecodeError::Empty),
            decoded_rgba8(bytes@) is Some && has_pixels(decoded_rgba8(bytes@).unwrap(), width, height)
                ==> ({
                let f = filled_rgba8(bytes@, width, height);
                &&& four_per_pixel(f)
                &&& fill_in_range(decoded_rgba8(bytes@).unwrap().0, decoded_rgba8(bytes@).unwrap().1, width, height)
                    ==> f.0 == width && f.1 == height
                &&& (r is Ok <==> f.0 % 16 == 0)
                &&& f.0 % 16 != 0 ==> (r matches Err(DecodeError::BadWidth(w)) && w == f.0)
                &&& r matches Ok(img) ==> picture_of(img) == image_of(f)
            }),
    {
        let p = match load_picture(bytes) {
            Err(e) => {
                return Err(DecodeError::Image(e));
            },
            Ok(p) => p,
        };
        if p.width == 0 || p.height == 0 || width == 0 || height == 0 {
            return Err(DecodeError::Empty);
        }
        let resized = fill_picture(&p, width, height);
        aligned_from_pixels(resized)
    }
}

impl AlignedRgbaImage {
    /// Decodes a picture (any format the image crate reads) into an
    /// `AlignedRgbaImage` of any width, with red and blue exchanged in every
    /// pixel (RGBA to BGRA).
    pub fn decode(bytes: &[u8]) -> (r: Result<AlignedRgbaImage, DecodeError>)
        ensures
            decoded_rgba8(bytes@) is None <==> r matches Err(DecodeError::Image(_)),
            decoded_rgba8(bytes@) is Some ==> r is Ok && four_per_pixel(
                decoded_rgba8(bytes@).unwrap(),
            ),
            r matches Ok(img) ==> (img@.width, img@.height, img@.bytes) == image_of(
                decoded_rgba8(bytes@).unwrap(),
            ),
    {
        match load_rgba8(bytes) {
            Err(e) => Err(DecodeError::Image(e)),
            Ok(px) => Ok(AlignedRgbaImage::from_rgba8(px.width, px.height, px.bytes.as_slice())),
        }
    }
}

} // verus!

//! The calls into the `image` crate: format detection, decoding to luma,
//! resampling and PNG encoding.

use vstd::prelude::*;
use crate::converter::raster::Raster;

verus! {

/// The `image` crate's error type, carried through opaque.
#[verifier::external_type_specification]
#[verifier::external_body]
pub struct ExImageError(image::ImageError);

/// The `image` crate's format tag, carried through opaque.
#[verifier::external_type_specification]
#[verifier::external_body]
pub struct ExImageFormat(image::ImageFormat);

/// Whether `bytes` begin with `prefix`.
pub open spec fn starts_with(bytes: Seq<u8>, prefix: Seq<u8>) -> bool {
    prefix.len() <= bytes.len() && bytes.take(prefix.len() as int) == prefix
}

/// Whether `bytes` start with the signature of a format that the codec
/// recognises: PNG, JPEG, GIF, WebP, TIFF, DDS, BMP, ICO, Radiance HDR, the
/// seven PNM kinds, farbfeld, AVIF, OpenEXR or QOI.
pub open spec fn has_image_signature(bytes: Seq<u8>) -> bool {
    ||| starts_with(bytes, seq![0x89u8, 0x50u8, 0x4eu8, 0x47u8, 0x0du8, 0x0au8, 0x1au8, 0x0au8])
    ||| starts_with(bytes, seq![0xffu8, 0xd8u8, 0xffu8])
    ||| starts_with(bytes, seq![0x47u8, 0x49u8, 0x46u8, 0x38u8, 0x39u8, 0x61u8])
    ||| starts_with(bytes, seq![0x47u8, 0x49u8, 0x46u8, 0x38u8, 0x37u8, 0x61u8])
    ||| starts_with(bytes, seq![0x52u8, 0x49u8, 0x46u8, 0x46u8])
    ||| starts_with(bytes, seq![0x4du8, 0x4du8, 0x00u8, 0x2au8])
    ||| starts_with(bytes, seq![0x49u8, 0x49u8, 0x2au8, 0x00u8])
    ||| starts_with(bytes, seq![0x44u8, 0x44u8, 0x53u8, 0x20u8])
    ||| starts_with(bytes, seq![0x42u8, 0x4du8])
    ||| starts_with(bytes, seq![0x00u8, 0x00u8, 0x01u8, 0x00u8])
    ||| starts_with(bytes, seq![0x23u8, 0x3fu8, 0x52u8, 0x41u8, 0x44u8, 0x49u8, 0x41u8, 0x4eu8, 0x43u8, 0x45u8])
    ||| starts_with(bytes, seq![0x50u8, 0x31u8])
    ||| starts_with(bytes, seq![0x50u8, 0x32u8])
    ||| starts_with(bytes, seq![0x50u8, 0x33u8])
    ||| starts_with(bytes, seq![0x50u8, 0x34u8])
    ||| starts_with(bytes, seq![0x50u8, 0x35u8])
    ||| starts_with(bytes, seq![0x50u8, 0x36u8])
    ||| starts_with(bytes, seq![0x50u8, 0x37u8])
    ||| starts_with(bytes, seq![0x66u8, 0x61u8, 0x72u8, 0x62u8, 0x66u8, 0x65u8, 0x6cu8, 0x64u8])
    ||| starts_with(bytes, seq![0x00u8, 0x00u8, 0x00u8, 0x20u8, 0x66u8, 0x74u8, 0x79u8, 0x70u8, 0x61u8, 0x76u8, 0x69u8, 0x66u8])
    ||| starts_with(bytes, seq![0x00u8, 0x00u8, 0x00u8, 0x1cu8, 0x66u8, 0x74u8, 0x79u8, 0x70u8, 0x61u8, 0x76u8, 0x69u8, 0x66u8])
    ||| starts_with(bytes, seq![0x76u8, 0x2fu8, 0x31u8, 0x01u8])
    ||| starts_with(bytes, seq![0x71u8, 0x6fu8, 0x69u8, 0x66u8])
}

/// The samples that triangle-filter resampling of a `width` by `height` raster
/// to `new_width` by `new_height` gives.
pub uninterp spec fn triangle_resize(
    pixels: Seq<u8>,
    width: u32,
    height: u32,
    new_width: u32,
    new_height: u32,
) -> Seq<u8>;

/// The PNG file that the codec writes for a `width` by `height` luma raster,
/// or `None` where the encoder refuses it.
pub uninterp spec fn png_encoding(pixels: Seq<u8>, width: u32, height: u32) -> Option<Seq<u8>>;

/// Relies on image::guess_format: it succeeds exactly when the bytes start
/// with one of the signatures it knows, and looks at nothing else.
pub assume_specification[ image::guess_format ](buffer: &[u8]) -> (r: image::ImageResult<
    image::ImageFormat,
>)
    ensures
        r is Ok <==> has_image_signature(buffer@),
;

/// Whether the codec decodes `bytes` to an image.
pub uninterp spec fn decodes(bytes: Seq<u8>) -> bool;

/// The width of the image that the codec decodes from `bytes`.
pub uninterp spec fn decoded_width(bytes: Seq<u8>) -> u32;

/// The height of the image that the codec decodes from `bytes`.
pub uninterp spec fn decoded_height(bytes: Seq<u8>) -> u32;

/// Relies on image::load_from_memory, which first guesses the format as
/// image::guess_format does and fails where it recognises none, and on
/// DynamicImage::to_luma8, which gives one byte for each pixel of the
/// decoded image. Whether decoding succeeds, and the size of the image,
/// depend on the bytes alone. The samples themselves are not stated: the
/// JPEG decoder picks a SIMD or a scalar path by the CPU it runs on, and
/// the two do not agree bit for bit.
#[verifier::external_body]
pub(crate) fn decode_gray(bytes: &[u8]) -> (r: Result<Raster, image::ImageError>)
    ensures
        r is Ok <==> decodes(bytes@),
        r matches Ok(g) ==> g.wf() && has_image_signature(bytes@),
        r matches Ok(g) ==> decoded_width(bytes@) == g.width && decoded_height(bytes@) == g.height,
{
    match image::load_from_memory(bytes) {
        Ok(img) => {
            let gray = img.to_luma8();
            Ok(Raster { width: gray.width(), height: gray.height(), pixels: gray.into_raw() })
        },
        Err(e) => Err(e),
    }
}

/// Relies on image::imageops::resize with the triangle filter: the result has
/// the requested size and depends on the source raster alone. It builds an
/// intermediate four-channel buffer of `width` by `new_height` and panics if
/// a buffer's length does not fit in `usize`.
#[verifier::external_body]
pub(crate) fn resize_triangle(src: &Raster, new_width: u32, new_height: u32) -> (r: Raster)
    requires
        src.wf(),
        src.width as int * new_height as int * 4 <= usize::MAX,
        new_width as int * new_height as int * 4 <= usize::MAX,
    ensures
        r.wf(),
        r.width == new_width,
        r.height == new_height,
        r.pixels@ == triangle_resize(src.pixels@, src.width, src.height, new_width, new_height),
{
    let img = image::GrayImage::from_raw(src.width, src.height, src.pixels.clone()).unwrap();
    let out = image::imageops::resize(&img, new_width, new_height, image::imageops::FilterType::Triangle);
    Raster { width: out.width(), height: out.height(), pixels: out.into_raw() }
}

/// Relies on ImageBuffer::write_to with the PNG format: whether it succeeds,
/// and the PNG file the buffer then holds, depend on the raster alone; the
/// png encoder refuses a raster with no columns or no rows, and nothing else
/// (writing to a memory buffer does not fail).
#[verifier::external_body]
pub(crate) fn encode_png(src: &Raster) -> (r: Result<Vec<u8>, image::ImageError>)
    requires
        src.wf(),
    ensures
        r is Ok <==> png_encoding(src.pixels@, src.width, src.height) is Some,
        src.width == 0 || src.height == 0 ==> r is Err,
        src.width > 0 && src.height > 0 ==> r is Ok,
        r matches Ok(b) ==> png_encoding(src.pixels@, src.width, src.height) == Some(b@),
{
    let img = image::GrayImage::from_raw(src.width, src.height, src.pixels.clone()).unwrap();
    let mut buffer = std::io::Cursor::new(Vec::new());
    match img.write_to(&mut buffer, image::ImageOutputFormat::Png) {
        Ok(()) => Ok(buffer.into_inner()),
        Err(e) => Err(e),
    }
}

} // verus!

//! The decoded raster and the codecs that produce and consume it.
//!
//! Resampling and encoding are done by the `image`, `webp` and `oxipng` crates.
//! Nothing in this file is proved: each item states what the rest of the library
//! relies on.

use crate::encoding::WEBP_QUALITY;
use crate::util::DecoderFormat;
use image::{DynamicImage, ImageFormat};
use vstd::prelude::*;

verus! {

/// A decoded image of the `image` crate, carried through the pipeline as it is.
#[verifier::external_type_specification]
#[verifier::external_body]
pub struct ExDynamicImage(image::DynamicImage);

/// The format tag of the `image` crate.
#[verifier::external_type_specification]
#[verifier::external_body]
pub struct ExImageFormat(image::ImageFormat);

/// Width and height of a raster, as `image::GenericImageView::dimensions` reports them.
pub uninterp spec fn image_dimensions(im: DynamicImage) -> (u32, u32);

/// Calls `image::GenericImageView::dimensions` on the raster.
#[verifier::external_body]
pub(crate) fn dimensions(im: &DynamicImage) -> (size: (u32, u32))
    ensures
        size == image_dimensions(*im),
{
    image::GenericImageView::dimensions(im)
}

/// A clone of a raster is the raster again: the same pixels in the same size.
pub assume_specification[ <DynamicImage as Clone>::clone ](im: &DynamicImage) -> (copy: DynamicImage)
    ensures
        copy == *im,
;

/// The variant of `image::ImageFormat` that carries the name of `format`.
pub uninterp spec fn image_format_of(format: DecoderFormat) -> ImageFormat;

/// Hands out the variant of `image::ImageFormat` of the same name.
#[verifier::external_body]
pub(crate) fn to_image_format(format: DecoderFormat) -> (tag: ImageFormat)
    ensures
        tag == image_format_of(format),
{
    match format {
        DecoderFormat::Png => ImageFormat::Png,
        DecoderFormat::Jpeg => ImageFormat::Jpeg,
        DecoderFormat::Gif => ImageFormat::Gif,
        DecoderFormat::WebP => ImageFormat::WebP,
        DecoderFormat::Pnm => ImageFormat::Pnm,
        DecoderFormat::Tiff => ImageFormat::Tiff,
        DecoderFormat::Tga => ImageFormat::Tga,
        DecoderFormat::Dds => ImageFormat::Dds,
        DecoderFormat::Bmp => ImageFormat::Bmp,
        DecoderFormat::Ico => ImageFormat::Ico,
        DecoderFormat::Hdr => ImageFormat::Hdr,
        DecoderFormat::Farbfeld => ImageFormat::Farbfeld,
        DecoderFormat::Avif => ImageFormat::Avif,
    }
}

/// Calls `image::DynamicImage::resize_exact` with the Lanczos3 filter. The new raster
/// has exactly the size asked for.
///
/// The crate resamples through a buffer of four 32-bit floats for each column of the
/// source and each row of the result, and panics where that buffer is larger than a
/// vector can be. A source without pixels is only safe where the result has none
/// either. Both are kept out: the result is no larger than the source on either side,
/// and the buffer fits.
#[verifier::external_body]
pub(crate) fn resize_exact(im: &DynamicImage, width: u32, height: u32) -> (resized: DynamicImage)
    requires
        width <= image_dimensions(*im).0,
        height <= image_dimensions(*im).1,
        16 * image_dimensions(*im).0 * height <= isize::MAX,
    ensures
        image_dimensions(resized) == (width, height),
{
    im.resize_exact(width, height, image::imageops::FilterType::Lanczos3)
}

/// Why the lossy encoder did not encode a raster, with the encoder's own account.
#[derive(Clone, Debug, PartialEq, Eq)]
pub enum WebpFailure {
    /// No encoder could be made for the raster.
    Encoder(String),
    /// The encoder was made, and failed.
    Encode(String),
}

/// Encodes the raster as lossy WebP: `webp::Encoder::from_image`, then
/// `encode_simple` with `lossless` off and the given quality, which is what the
/// crate's `encode` does before it unwraps. Either step may fail: the first with a
/// text, the second with a code, which is handed back as its `Debug` text.
///
/// Which bytes a success holds depends on the machine. It holds some: libwebp
/// reports success only once it has written the headers of the file.
///
/// The crate hands libwebp the length of a row in bytes as a signed 32-bit number,
/// four bytes to the pixel, so the width is bounded. The quality is the one that
/// the library encodes at.
#[verifier::external_body]
pub(crate) fn encode_webp(im: &DynamicImage, quality: u8) -> (r: Result<Vec<u8>, WebpFailure>)
    requires
        4 * image_dimensions(*im).0 <= i32::MAX,
        quality == WEBP_QUALITY,
    ensures
        r matches Ok(bytes) ==> bytes@.len() > 0,
{
    let encoder = match webp::Encoder::from_image(im) {
        Ok(encoder) => encoder,
        Err(e) => return Err(WebpFailure::Encoder(e.to_string())),
    };
    match encoder.encode_simple(false, quality.into()) {
        Ok(memory) => Ok(memory.to_vec()),
        Err(e) => Err(WebpFailure::Encode(format!("{:?}", e))),
    }
}

/// What writing the raster as a PNG file comes to: the bytes of the file, or the
/// text of the error. The encoder works on the pixels, the size and the color type
/// of the raster with integers alone, so the raster decides the outcome.
pub uninterp spec fn png_encoded(im: DynamicImage) -> Result<Seq<u8>, Seq<char>>;

/// Encodes the raster as PNG with `image::DynamicImage::write_to`, into memory. An
/// error is handed back as its `Display` text.
#[verifier::external_body]
pub(crate) fn encode_png(im: &DynamicImage) -> (r: Result<Vec<u8>, String>)
    ensures
        match r {
            Ok(bytes) => png_encoded(*im) == Ok::<Seq<u8>, Seq<char>>(bytes@),
            Err(e) => png_encoded(*im) == Err::<Seq<u8>, Seq<char>>(e@),
        },
{
    let mut bytes = std::io::Cursor::new(Vec::new());
    match im.write_to(&mut bytes, image::ImageOutputFormat::Png) {
        Ok(_) => Ok(bytes.into_inner()),
        Err(e) => Err(e.to_string()),
    }
}

/// Recompresses a PNG file with `oxipng::optimize_from_memory` under the crate's
/// default options. An error is handed back as its `Display` text. The crate tries
/// its reductions on several threads, and which bytes it settles on is left open.
/// What it hands back is a PNG file, which begins with the eight bytes that every
/// PNG file begins with. Under the default options it is the file as it was where
/// nothing smaller was found, so it is never longer than the file.
///
/// The crate reads the chunks of an animation without looking at their length, and
/// panics on one that is too short. The file is therefore one that `encode_png`
/// wrote for some raster, which holds no such chunk.
#[verifier::external_body]
pub(crate) fn optimize_png(png: &[u8]) -> (r: Result<Vec<u8>, String>)
    requires
        exists|im: DynamicImage| #[trigger] png_encoded(im) == Ok::<Seq<u8>, Seq<char>>(png@),
    ensures
        r matches Ok(optimized) ==> 0 < optimized@.len() <= png@.len(),
{
    match oxipng::optimize_from_memory(png, &oxipng::Options::default()) {
        Ok(optimized) => Ok(optimized),
        Err(e) => Err(e.to_string()),
    }
}

} // verus!

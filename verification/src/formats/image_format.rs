//! The still-image codec boundary: decoding bytes of a known or guessed
//! encoding into a `Raster`, and encoding a `Raster` back to bytes.
//!
//! The codecs themselves live in the `image` and `webp` crates. Each call
//! into them sits in one trusted wrapper; what a decode yields for given
//! bytes is named by an uninterpreted dimension function, and the encoders'
//! contracts tie the streams they produce back to those names.

use vstd::prelude::*;

use crate::error::ThumbError;
use crate::error::ThumbResult;
use crate::media::FormatTag;
use crate::media::MediaType;
use crate::raster::Raster;
use image::ImageFormat;
use image::io::Reader as ImageReader;
use image::GenericImageView;
use std::io::Cursor;
use webp::Decoder as WebpDecoder;

verus! {

/// The encodings the `image` crate is asked to decode under an explicit
/// format tag.
#[derive(Clone, Copy, Debug, PartialEq, Eq, Structural)]
pub enum ImageKind {
    Png,
    Jpeg,
    Bmp,
    Gif,
}

/// The dimensions of the raster that a tagged decode of `bytes` under `kind`
/// yields; `None` when that decode fails. A function of the bytes and the
/// tag alone.
pub uninterp spec fn tagged_dims(bytes: Seq<u8>, kind: ImageKind) -> Option<(u32, u32)>;

/// The dimensions yielded by sniffing the encoding from the bytes themselves
/// and decoding; `None` when no format is recognized or the decode fails.
pub uninterp spec fn guessed_dims(bytes: Seq<u8>) -> Option<(u32, u32)>;

/// The dimensions of the raster that the WebP decoder yields for `bytes`;
/// `None` when the bitstream is not a still WebP image.
pub uninterp spec fn webp_dims(bytes: Seq<u8>) -> Option<(u32, u32)>;

/// Relies on `image::io::Reader::with_format` + `decode`: decoding fixed
/// bytes under a fixed format tag is deterministic, succeeds exactly when
/// `tagged_dims` is `Some`, and returns a raster of those dimensions.
#[verifier::external_body]
pub(crate) fn decode_tagged(bytes: &Vec<u8>, kind: ImageKind) -> (r: Result<
    Raster,
    image::error::ImageError,
>)
    ensures
        r is Ok <==> tagged_dims(bytes@, kind) is Some,
        r is Ok ==> Some((r->Ok_0).spec_dims()) == tagged_dims(bytes@, kind),
{
    let tag = match kind {
        ImageKind::Png => ImageFormat::Png,
        ImageKind::Jpeg => ImageFormat::Jpeg,
        ImageKind::Bmp => ImageFormat::Bmp,
        ImageKind::Gif => ImageFormat::Gif,
    };
    match ImageReader::with_format(Cursor::new(bytes.as_slice()), tag).decode() {
        Ok(image) => {
            let (width, height) = image.dimensions();
            Ok(Raster::from_parts(image, width, height))
        },
        Err(e) => Err(e),
    }
}

/// Relies on `image::io::Reader::with_guessed_format` + `decode`: the format
/// guess reads a prefix of the bytes (the in-memory cursor cannot fail), so
/// the outcome is a function of the bytes alone.
#[verifier::external_body]
fn decode_guessed(bytes: &Vec<u8>) -> (r: Result<Raster, image::error::ImageError>)
    ensures
        r is Ok <==> guessed_dims(bytes@) is Some,
        r is Ok ==> Some((r->Ok_0).spec_dims()) == guessed_dims(bytes@),
{
    let reader = match ImageReader::new(Cursor::new(bytes.as_slice())).with_guessed_format() {
        Ok(reader) => reader,
        Err(e) => return Err(image::error::ImageError::IoError(e)),
    };
    match reader.decode() {
        Ok(image) => {
            let (width, height) = image.dimensions();
            Ok(Raster::from_parts(image, width, height))
        },
        Err(e) => Err(e),
    }
}

/// Relies on `webp::Decoder::decode`: it returns `Some` exactly for a valid
/// still WebP bitstream, and `to_image` keeps the decoded dimensions.
#[verifier::external_body]
pub(crate) fn decode_webp_bytes(bytes: &Vec<u8>) -> (r: Option<Raster>)
    ensures
        r is Some <==> webp_dims(bytes@) is Some,
        r is Some ==> Some((r->0).spec_dims()) == webp_dims(bytes@),
{
    match WebpDecoder::new(bytes.as_slice()).decode() {
        Some(webp_image) => {
            let image = webp_image.to_image();
            let (width, height) = image.dimensions();
            Some(Raster::from_parts(image, width, height))
        },
        None => None,
    }
}

/// Holds when an image of these dimensions has at least one pixel and is
/// small enough that the codecs' default decoding resource limits cannot
/// interfere with reading an encoded stream of it back.
pub open spec fn fits_decode_limits(dims: (u32, u32)) -> bool {
    1 <= dims.0 && 1 <= dims.1 && dims.0 * dims.1 <= 0x0100_0000
}

/// Relies on `DynamicImage::write_to` with `ImageFormat::Png` after an RGBA8
/// conversion (which keeps the dimensions): PNG encoding into an in-memory
/// buffer succeeds for any image within `fits_decode_limits`, it is
/// lossless, and the stream it writes for such an image decodes under the
/// PNG tag to an image of the same dimensions.
#[verifier::external_body]
pub(crate) fn encode_png_raster(source: Raster) -> (r: Result<Vec<u8>, image::error::ImageError>)
    ensures
        fits_decode_limits(source.spec_dims()) ==> r is Ok,
        r is Ok && fits_decode_limits(source.spec_dims()) ==> tagged_dims(
            (r->Ok_0)@,
            ImageKind::Png,
        ) == Some(source.spec_dims()),
{
    let image = image::DynamicImage::ImageRgba8(source.into_image().into_rgba8());
    let mut buf = Cursor::new(Vec::new());
    match image.write_to(&mut buf, ImageFormat::Png) {
        Ok(()) => Ok(buf.into_inner()),
        Err(e) => Err(e),
    }
}

/// Relies on `JpegEncoder::new_with_quality` + `encode_image` after an RGB8
/// conversion (alpha dropped, dimensions kept): encoding fails rather than
/// panicking when a dimension exceeds the 16-bit size field JPEG records,
/// succeeds into an in-memory buffer otherwise, and a stream written for an
/// image within `fits_decode_limits` decodes under the JPEG tag to the same
/// dimensions.
#[verifier::external_body]
pub(crate) fn encode_jpeg_raster(source: Raster, quality: u8) -> (r: Result<
    Vec<u8>,
    image::error::ImageError,
>)
    ensures
        fits_decode_limits(source.spec_dims()) && source.spec_dims().0 <= 0xFFFF
            && source.spec_dims().1 <= 0xFFFF ==> r is Ok,
        r is Ok && fits_decode_limits(source.spec_dims()) ==> tagged_dims(
            (r->Ok_0)@,
            ImageKind::Jpeg,
        ) == Some(source.spec_dims()),
{
    let image = image::DynamicImage::ImageRgb8(source.into_image().into_rgb8());
    let mut buf = Cursor::new(Vec::new());
    let mut encoder = image::codecs::jpeg::JpegEncoder::new_with_quality(&mut buf, quality);
    match encoder.encode_image(&image) {
        Ok(()) => Ok(buf.into_inner()),
        Err(e) => Err(e),
    }
}

/// Relies on `webp::Encoder::from_rgba` and `encode_advanced` with a
/// default `WebPConfig` switched to lossless: encoding succeeds exactly for
/// dimensions between 1 and libwebp's maximum of 16383 (it reports a bad
/// dimension instead of panicking), and an encoding it returns is a valid
/// still WebP stream of the image's dimensions.
#[verifier::external_body]
pub(crate) fn encode_webp_raster(source: Raster) -> (r: Option<Vec<u8>>)
    ensures
        1 <= source.spec_dims().0 <= 16383 && 1 <= source.spec_dims().1 <= 16383 ==> r is Some,
        r is Some ==> webp_dims((r->0)@) == Some(source.spec_dims()),
{
    let rgba = source.into_image().into_rgba8();
    let (width, height) = (rgba.width(), rgba.height());
    let raw = rgba.into_raw();
    let mut config = match webp::WebPConfig::new() {
        Ok(config) => config,
        Err(()) => return None,
    };
    config.lossless = 1;
    config.alpha_compression = 0;
    match webp::Encoder::from_rgba(&raw, width, height).encode_advanced(&config) {
        Ok(memory) => Some(memory.to_vec()),
        Err(_) => None,
    }
}

/// The format tag handed to the codec for a media type, if one exists.
pub open spec fn image_tag_spec(mime: FormatTag) -> Option<ImageKind> {
    match mime {
        FormatTag::Png => Some(ImageKind::Png),
        FormatTag::Jpeg => Some(ImageKind::Jpeg),
        FormatTag::Bmp => Some(ImageKind::Bmp),
        FormatTag::Gif => Some(ImageKind::Gif),
        _ => None,
    }
}

/// The dimensions the still-image decoder yields for `bytes` identified as
/// `media`: the WebP path for WebP, a tagged decode where a tag exists, and
/// a sniff-then-decode fallback otherwise.
pub open spec fn decode_dims(bytes: Seq<u8>, media: MediaType) -> Option<(u32, u32)> {
    if media.format == FormatTag::Webp {
        webp_dims(bytes)
    } else {
        match image_tag_spec(media.format) {
            Some(kind) => tagged_dims(bytes, kind),
            None => guessed_dims(bytes),
        }
    }
}

fn mime_to_image_format(mime: FormatTag) -> (r: Option<ImageKind>)
    ensures
        r == image_tag_spec(mime),
{
    match mime {
        FormatTag::Png => Some(ImageKind::Png),
        FormatTag::Jpeg => Some(ImageKind::Jpeg),
        FormatTag::Bmp => Some(ImageKind::Bmp),
        FormatTag::Gif => Some(ImageKind::Gif),
        _ => None,
    }
}

/// Reads a webp image
fn read_webp_image(bytes: &Vec<u8>) -> (r: ThumbResult<Raster>)
    ensures
        r is Ok <==> webp_dims(bytes@) is Some,
        r is Ok ==> Some((r->Ok_0).spec_dims()) == webp_dims(bytes@),
        r is Err ==> r->Err_0 is Decode,
{
    match decode_webp_bytes(bytes) {
        Some(raster) => Ok(raster),
        None => Err(ThumbError::Decode),
    }
}

/// Reads a generic image
fn read_generic_image(bytes: &Vec<u8>, format: Option<ImageKind>) -> (r: ThumbResult<Raster>)
    ensures
        r is Ok <==> (match format {
            Some(kind) => tagged_dims(bytes@, kind),
            None => guessed_dims(bytes@),
        }) is Some,
        r is Ok ==> Some((r->Ok_0).spec_dims()) == (match format {
            Some(kind) => tagged_dims(bytes@, kind),
            None => guessed_dims(bytes@),
        }),
        r is Err ==> r->Err_0 is Image,
{
    let decoded = match format {
        Some(kind) => decode_tagged(bytes, kind),
        None => decode_guessed(bytes),
    };
    match decoded {
        Ok(raster) => Ok(raster),
        Err(e) => Err(ThumbError::Image(e)),
    }
}

/// Reads an image with a known media type. Succeeds exactly when the codec
/// selected for `format` can decode the bytes, and then returns a raster of
/// the dimensions recorded in them.
pub fn read_image(bytes: &Vec<u8>, format: MediaType) -> (r: ThumbResult<Raster>)
    ensures
        r is Ok <==> decode_dims(bytes@, format) is Some,
        r is Ok ==> Some((r->Ok_0).spec_dims()) == decode_dims(bytes@, format),
        r is Err ==> (if format.format == FormatTag::Webp {
            r->Err_0 is Decode
        } else {
            r->Err_0 is Image
        }),
{
    match format.format {
        FormatTag::Webp => read_webp_image(bytes),
        _ => read_generic_image(bytes, mime_to_image_format(format.format)),
    }
}

} // verus!

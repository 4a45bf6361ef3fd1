//! Obtaining one decodable still frame from identified input bytes.

use vstd::prelude::*;

use crate::error::ThumbError;
use crate::error::ThumbResult;
use crate::media::FormatTag;
use crate::media::MediaType;
use crate::media::Strategy;
use crate::media::resolve;
use crate::media::resolve_spec;
use crate::raster::Raster;
use crate::formats::image_format::decode_dims;
use crate::formats::image_format::read_image;

pub mod image_format;
pub mod video_format;

verus! {

/// The failure `get_base_image` reports for `bytes` identified as `mime`:
/// media that resolves to direct decoding surfaces the codec's failure
/// (a sentinel `Decode` on the WebP path, a structured `Image` error
/// otherwise); everything else is `Unsupported`.
pub open spec fn base_image_error(e: ThumbError, mime: MediaType) -> bool {
    if resolve_spec(mime) is DecodeImage {
        if mime.format == FormatTag::Webp {
            e is Decode
        } else {
            e is Image
        }
    } else {
        e == ThumbError::Unsupported(mime)
    }
}

/// Reads the buffer content into an image that can be used for thumbnail
/// generation.
///
/// Media resolving to direct image decoding is decoded here. Media resolving
/// to video frame extraction needs the external extraction tool, which only
/// the surrounding application can run (it probes for the tool, extracts a
/// frame and hands its bytes to `video_format`); from this library's core the
/// capability is absent, so such media reports `Unsupported`, exactly as the
/// extractor path does when the tool is not installed.
pub fn get_base_image(bytes: &Vec<u8>, mime: MediaType) -> (r: ThumbResult<Raster>)
    ensures
        r is Ok <==> resolve_spec(mime) is DecodeImage && decode_dims(bytes@, mime) is Some,
        r is Ok ==> Some((r->Ok_0).spec_dims()) == decode_dims(bytes@, mime),
        r is Err ==> base_image_error(r->Err_0, mime),
{
    match resolve(mime) {
        Strategy::DecodeImage => read_image(bytes, mime),
        Strategy::ExtractVideoFrame => Err(ThumbError::Unsupported(mime)),
        Strategy::Unsupported => Err(ThumbError::Unsupported(mime)),
    }
}

} // verus!

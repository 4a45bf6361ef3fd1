//! The decision half of video frame extraction.
//!
//! Extraction itself runs an external tool against a temporary file, which
//! only the surrounding application can do. This module fixes everything the
//! application must not decide for itself: which frame offsets are requested,
//! how the bytes the tool returns become rasters, and how an optional target
//! size is applied to each frame.

use vstd::prelude::*;

use crate::FilterType;
use crate::ThumbnailSize;
use crate::error::ThumbError;
use crate::error::ThumbResult;
use crate::formats::image_format::ImageKind;
use crate::formats::image_format::decode_tagged;
use crate::formats::image_format::decode_webp_bytes;
use crate::formats::image_format::tagged_dims;
use crate::formats::image_format::webp_dims;
use crate::raster::Raster;
use crate::resize_single;

verus! {

/// The fixed frame offset used for single-frame extraction.
pub const SINGLE_FRAME_OFFSET: usize = 16;

/// How many frames multi-frame extraction asks the external tool for when
/// `total` frames were requested: one fewer than requested, and at least one.
pub open spec fn spec_frame_count(total: usize) -> int {
    if total <= 1 {
        1
    } else {
        total - 1
    }
}

/// The frame offsets multi-frame extraction requests, in the order it
/// requests them: `stride, 2 * stride, ...`, one per frame. The offsets are
/// strictly increasing whenever `stride` is positive.
pub fn multi_frame_offsets(total: usize, stride: usize) -> (r: Vec<usize>)
    requires
        spec_frame_count(total) * stride <= usize::MAX,
    ensures
        r@.len() == spec_frame_count(total),
        forall|i: int| 0 <= i < r@.len() ==> #[trigger] r@[i] == (i + 1) * stride,
{
    let count: usize = if total <= 1 {
        1
    } else {
        total - 1
    };
    let mut offsets: Vec<usize> = Vec::new();
    let mut i: usize = 0;
    while i < count
        invariant
            i <= count,
            count == spec_frame_count(total),
            count * stride <= usize::MAX,
            offsets@.len() == i,
            forall|j: int| 0 <= j < i ==> #[trigger] offsets@[j] == (j + 1) * stride,
        decreases count - i,
    {
        assert((i + 1) * stride <= count * stride) by (nonlinear_arith)
            requires
                i + 1 <= count,
                stride >= 0,
        ;
        let offset: usize = (i + 1) * stride;
        offsets.push(offset);
        i = i + 1;
    }
    offsets
}

/// Law: the planned frame offsets are strictly increasing whenever the
/// stride is positive, so frames collected in request order come back in
/// increasing-offset order.
pub proof fn lemma_offsets_strictly_increase(stride: usize, offsets: Seq<usize>)
    requires
        stride > 0,
        forall|i: int| 0 <= i < offsets.len() ==> #[trigger] offsets[i] == (i + 1) * stride,
    ensures
        forall|i: int, j: int| 0 <= i < j < offsets.len() ==> offsets[i] < offsets[j],
{
    assert forall|i: int, j: int| 0 <= i < j < offsets.len() implies offsets[i] < offsets[j] by {
        assert((i + 1) * stride < (j + 1) * stride) by (nonlinear_arith)
            requires
                0 <= i < j,
                stride > 0,
        ;
    }
}

/// One step of multi-frame extraction, after the external tool returned
/// `bytes` for some offset: decode them as a WebP still frame and, when a
/// target size is requested, resize the frame to exactly that size
/// (Lanczos3). `None` reports a frame that cannot be decoded, on which the
/// caller stops collecting.
pub fn decode_webp_frame(bytes: &Vec<u8>, scale: Option<(u32, u32)>) -> (r: Option<Raster>)
    ensures
        r is Some <==> webp_dims(bytes@) is Some,
        r is Some ==> (match scale {
            Some(dims) => (r->0).spec_dims() == dims,
            None => Some((r->0).spec_dims()) == webp_dims(bytes@),
        }),
{
    match decode_webp_bytes(bytes) {
        None => None,
        Some(frame) => match scale {
            Some(dims) => Some(
                resize_single(&frame, ThumbnailSize::Custom(dims), FilterType::Lanczos3),
            ),
            None => Some(frame),
        },
    }
}

/// Decodes the still frame that single-frame extraction yields: the external
/// tool is asked for one frame encoded as PNG, and its bytes become the base
/// image.
pub fn frame_from_png_bytes(bytes: &Vec<u8>) -> (r: ThumbResult<Raster>)
    ensures
        r is Ok <==> tagged_dims(bytes@, ImageKind::Png) is Some,
        r is Ok ==> Some((r->Ok_0).spec_dims()) == tagged_dims(bytes@, ImageKind::Png),
        r is Err ==> r->Err_0 is Image,
{
    match decode_tagged(bytes, ImageKind::Png) {
        Ok(raster) => Ok(raster),
        Err(e) => Err(ThumbError::Image(e)),
    }
}

} // verus!

//! # Thumbnailer
//!
//! Generates fixed-size raster thumbnails from identified media bytes: a
//! resolver picks a handling strategy for the media type, a still-image
//! decoder (or, driven by the surrounding application, an external video
//! frame extractor) produces one base raster, and a resize engine fans out to
//! one exactly-sized raster per requested size, each wrapped as a
//! [`Thumbnail`] that can be encoded to PNG, JPEG or WebP bytes.
//!
//! Every thumbnail's dimensions equal the size requested for it: resizing is
//! exact-fit (the aspect ratio is not preserved), and the outputs come back
//! in the order of the size requests.

use vstd::prelude::*;

pub mod error;
mod media;
mod raster;
mod size;
pub mod formats;

pub use error::ThumbError;
pub use error::ThumbResult;
pub use media::FormatTag;
pub use media::MediaKind;
pub use media::MediaType;
pub use media::Strategy;
pub use media::resolve;
pub use media::resolve_spec;
pub use media::sniff_media_type;
pub use media::sniffed_media;
pub use raster::Raster;
pub use size::ThumbnailSize;

use formats::base_image_error;
use formats::get_base_image;
use formats::image_format::ImageKind;
use formats::image_format::decode_dims;
use formats::image_format::fits_decode_limits;
use formats::image_format::encode_jpeg_raster;
use formats::image_format::encode_png_raster;
use formats::image_format::encode_webp_raster;
use formats::image_format::tagged_dims;
use formats::image_format::webp_dims;
use raster::resize_exact_raster;
use rayon::iter::IntoParallelRefIterator;
use rayon::iter::ParallelIterator;

verus! {

/// The resampling filter used when a source image is scaled to a thumbnail
/// size. `Lanczos3` is the default.
#[derive(Clone, Copy, Debug)]
pub enum FilterType {
    Nearest,
    Triangle,
    CatmullRom,
    Gaussian,
    Lanczos3,
}

/// A generated thumbnail: one resized raster, tagged with the media type of
/// the *source* it was derived from (not of its output encoding). Encoding
/// consumes the thumbnail; re-encoding takes an explicit duplicate.
#[derive(Clone, Debug)]
pub struct Thumbnail {
    inner: Raster,
    mime: MediaType,
}

/// `thumbs` holds one thumbnail per requested size, in request order, each
/// of exactly the requested dimensions and tagged with the source media
/// type `mime`.
pub open spec fn thumbs_match(
    thumbs: Seq<Thumbnail>,
    sizes: Seq<ThumbnailSize>,
    mime: MediaType,
) -> bool {
    &&& thumbs.len() == sizes.len()
    &&& forall|i: int|
        0 <= i < thumbs.len() ==> (#[trigger] thumbs[i]).spec_size() == sizes[i].spec_dimensions()
            && thumbs[i].spec_mime() == mime
}

impl Thumbnail {
    /// The dimensions of the thumbnail's raster.
    pub closed spec fn spec_size(&self) -> (u32, u32) {
        self.inner.spec_dims()
    }

    /// The media type of the source the thumbnail was derived from.
    pub closed spec fn spec_mime(&self) -> MediaType {
        self.mime
    }

    /// Returns the bytes of the image in a png format. Encoding consumes the
    /// thumbnail; for a thumbnail within the codecs' decoding limits the
    /// produced stream decodes back (PNG is lossless) to a raster of the
    /// thumbnail's own dimensions.
    pub fn write_png(self) -> (r: ThumbResult<Vec<u8>>)
        ensures
            fits_decode_limits(self.spec_size()) ==> r is Ok,
            r is Ok && fits_decode_limits(self.spec_size()) ==> tagged_dims(
                (r->Ok_0)@,
                ImageKind::Png,
            ) == Some(self.spec_size()),
            r is Err ==> r->Err_0 is Image,
    {
        match encode_png_raster(self.inner) {
            Ok(bytes) => Ok(bytes),
            Err(e) => Err(ThumbError::Image(e)),
        }
    }

    /// Returns the bytes of the image in a jpeg format, encoded at the given
    /// quality (the JPEG encoder's standard 0–100 scale); the alpha channel
    /// is dropped.
    pub fn write_jpeg(self, quality: u8) -> (r: ThumbResult<Vec<u8>>)
        ensures
            fits_decode_limits(self.spec_size()) && self.spec_size().0 <= 0xFFFF
                && self.spec_size().1 <= 0xFFFF ==> r is Ok,
            r is Ok && fits_decode_limits(self.spec_size()) ==> tagged_dims(
                (r->Ok_0)@,
                ImageKind::Jpeg,
            ) == Some(self.spec_size()),
            r is Err ==> r->Err_0 is Image,
    {
        match encode_jpeg_raster(self.inner, quality) {
            Ok(bytes) => Ok(bytes),
            Err(e) => Err(ThumbError::Image(e)),
        }
    }

    /// Returns the bytes of the image in a webp format (lossless). The WebP
    /// capability signals failure by absence, surfaced as `Decode`.
    pub fn write_webp(self) -> (r: ThumbResult<Vec<u8>>)
        ensures
            1 <= self.spec_size().0 <= 16383 && 1 <= self.spec_size().1 <= 16383 ==> r is Ok,
            r is Ok ==> webp_dims((r->Ok_0)@) == Some(self.spec_size()),
            r is Err ==> r->Err_0 is Decode,
    {
        match encode_webp_raster(self.inner) {
            Some(bytes) => Ok(bytes),
            None => Err(ThumbError::Decode),
        }
    }

    /// Returns the media type of the source it was parsed from.
    pub fn return_fileformat(&self) -> (r: MediaType)
        ensures
            r == self.spec_mime(),
    {
        self.mime
    }

    /// Returns the size of the thumbnail as width, height.
    pub fn size(&self) -> (r: (u32, u32))
        ensures
            r == self.spec_size(),
    {
        self.inner.dimensions()
    }
}

/// Resizes the source to exactly one requested size. Resizing a decoded
/// raster never fails.
pub(crate) fn resize_single(image: &Raster, size: ThumbnailSize, filter: FilterType) -> (r: Raster)
    ensures
        r.spec_dims() == size.spec_dimensions(),
{
    let (width, height) = size.dimensions();
    resize_exact_raster(image, width, height, filter)
}

/// Relies on rayon's `par_iter().map(..).collect()`: the collected vector
/// holds the mapped results in the order of the input slice, regardless of
/// which parallel task finishes first; each element is produced by the
/// verified `resize_single`, whose contract gives its dimensions.
#[verifier::external_body]
fn resize_parallel(image: &Raster, sizes: &Vec<ThumbnailSize>, filter: FilterType) -> (r: Vec<
    Raster,
>)
    ensures
        r@.len() == sizes@.len(),
        forall|i: int|
            0 <= i < sizes@.len() ==> (#[trigger] r@[i]).spec_dims()
                == sizes@[i].spec_dimensions(),
{
    sizes.par_iter().map(|size| resize_single(image, *size, filter)).collect()
}

/// The resize engine: one output raster per requested size, in request
/// order, each of exactly the requested dimensions. The fan-out over the
/// sizes runs in parallel; every task reads the same immutable source.
fn resize_images(image: Raster, sizes: &Vec<ThumbnailSize>, filter_type: FilterType) -> (r: Vec<
    Raster,
>)
    ensures
        r@.len() == sizes@.len(),
        forall|i: int|
            0 <= i < sizes@.len() ==> (#[trigger] r@[i]).spec_dims()
                == sizes@[i].spec_dimensions(),
{
    resize_parallel(&image, sizes, filter_type)
}

/// Fans one base image out to a thumbnail per requested size, in request
/// order, each tagged with the source media type. This is the stage the
/// surrounding application reuses after it has extracted a video frame.
pub fn thumbnails_from_image(
    image: Raster,
    mime: MediaType,
    sizes: &Vec<ThumbnailSize>,
    filter: FilterType,
) -> (r: Vec<Thumbnail>)
    ensures
        thumbs_match(r@, sizes@, mime),
{
    let mut images = resize_images(image, sizes, filter);
    let ghost all_images = images@;
    let mut thumbs: Vec<Thumbnail> = Vec::new();
    while images.len() > 0
        invariant
            all_images.len() == sizes@.len(),
            forall|i: int|
                0 <= i < all_images.len() ==> (#[trigger] all_images[i]).spec_dims()
                    == sizes@[i].spec_dimensions(),
            thumbs@.len() + images@.len() == all_images.len(),
            images@ == all_images.skip(thumbs@.len() as int),
            forall|i: int|
                0 <= i < thumbs@.len() ==> (#[trigger] thumbs@[i]).spec_size()
                    == sizes@[i].spec_dimensions() && thumbs@[i].spec_mime() == mime,
        decreases images@.len(),
    {
        let ghost done = thumbs@.len() as int;
        let image = images.remove(0);
        proof {
            assert(image == all_images[done]);
            assert(images@ =~= all_images.skip(done + 1));
        }
        thumbs.push(Thumbnail { inner: image, mime });
    }
    thumbs
}

/// Creates thumbnails of the requested sizes for the given content bytes and
/// the media type describing them, resampling with the given filter.
///
/// Succeeds exactly when a base image can be obtained for the media type
/// (see [`formats::get_base_image`]); it then returns one thumbnail per
/// requested size, in request order, each of exactly the requested
/// dimensions.
pub fn create_thumbnails_samplefilter(
    bytes: &Vec<u8>,
    mime: MediaType,
    sizes: &Vec<ThumbnailSize>,
    filter: FilterType,
) -> (r: ThumbResult<Vec<Thumbnail>>)
    ensures
        r is Ok <==> resolve_spec(mime) is DecodeImage && decode_dims(bytes@, mime) is Some,
        r is Ok ==> thumbs_match((r->Ok_0)@, sizes@, mime),
        r is Err ==> base_image_error(r->Err_0, mime),
{
    match get_base_image(bytes, mime) {
        Ok(image) => Ok(thumbnails_from_image(image, mime, sizes, filter)),
        Err(e) => Err(e),
    }
}

/// Creates thumbnails of the requested sizes for the given content bytes and
/// the media type describing them, with the default Lanczos3 filter.
pub fn create_thumbnails(bytes: &Vec<u8>, mime: MediaType, sizes: &Vec<ThumbnailSize>) -> (r:
    ThumbResult<Vec<Thumbnail>>)
    ensures
        r is Ok <==> resolve_spec(mime) is DecodeImage && decode_dims(bytes@, mime) is Some,
        r is Ok ==> thumbs_match((r->Ok_0)@, sizes@, mime),
        r is Err ==> base_image_error(r->Err_0, mime),
{
    create_thumbnails_samplefilter(bytes, mime, sizes, FilterType::Lanczos3)
}

/// Creates thumbnails of the requested sizes despite not knowing the media
/// type: it is identified from the bytes themselves, and the result is what
/// the explicit-media-type call would return for that identification.
pub fn create_thumbnails_unknown_type(bytes: &Vec<u8>, sizes: &Vec<ThumbnailSize>) -> (r:
    ThumbResult<Vec<Thumbnail>>)
    ensures
        r is Ok <==> resolve_spec(sniffed_media(bytes@)) is DecodeImage && decode_dims(
            bytes@,
            sniffed_media(bytes@),
        ) is Some,
        r is Ok ==> thumbs_match((r->Ok_0)@, sizes@, sniffed_media(bytes@)),
        r is Err ==> base_image_error(r->Err_0, sniffed_media(bytes@)),
{
    let mime = sniff_media_type(bytes);
    create_thumbnails(bytes, mime, sizes)
}

/// Law: round trip — encoding a thumbnail to PNG and decoding the bytes
/// back yields a raster of dimensions identical to the thumbnail's own, for
/// every thumbnail within the codecs' decoding limits. Encoding consumes
/// the thumbnail, so the redecoded raster is handed back.
pub fn png_round_trip(thumbnail: Thumbnail) -> (r: ThumbResult<Raster>)
    ensures
        fits_decode_limits(thumbnail.spec_size()) ==> r is Ok && (r->Ok_0).spec_dims()
            == thumbnail.spec_size(),
{
    let bytes = match thumbnail.write_png() {
        Ok(bytes) => bytes,
        Err(e) => return Err(e),
    };
    formats::image_format::read_image(&bytes, MediaType::png())
}

/// Law: two successful thumbnail runs for the same size requests agree on
/// every thumbnail's dimensions, element by element — whatever media types
/// the two runs were given or sniffed, and whichever resize task finished
/// first. In particular, auto-detection yields the same dimensions as the
/// explicit-media-type call on the same bytes and sizes.
pub proof fn lemma_thumbnail_dimensions_agree(
    a: Seq<Thumbnail>,
    b: Seq<Thumbnail>,
    sizes: Seq<ThumbnailSize>,
    mime_a: MediaType,
    mime_b: MediaType,
)
    requires
        thumbs_match(a, sizes, mime_a),
        thumbs_match(b, sizes, mime_b),
    ensures
        a.len() == b.len(),
        forall|i: int| 0 <= i < a.len() ==> (#[trigger] a[i]).spec_size() == b[i].spec_size(),
{
}

} // verus!

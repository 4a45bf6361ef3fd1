//! An in-memory decoded raster image.
//!
//! The pixel buffer itself lives in an `image::DynamicImage`, which is opaque
//! here; the `Raster` pairs it with the one property the pipeline reasons
//! about, its width and height. Every constructor in this crate records the
//! dimensions the codec or the resizer reported for the wrapped image.

use vstd::prelude::*;

use crate::FilterType;

verus! {

#[verifier::external_type_specification]
#[verifier::external_body]
pub struct ExDynamicImage(image::DynamicImage);

/// Relies on `image::DynamicImage::clone` to duplicate the pixel buffer when
/// a raster (or a thumbnail holding one) is explicitly duplicated, for
/// instance to encode it more than once. Nothing is claimed of the copy.
pub assume_specification[ <image::DynamicImage as Clone>::clone ](
    image: &image::DynamicImage,
) -> image::DynamicImage;

/// A decoded bitmap: a pixel buffer together with its dimensions.
#[derive(Clone, Debug)]
pub struct Raster {
    image: image::DynamicImage,
    width: u32,
    height: u32,
}

impl Raster {
    /// The width and height of the bitmap.
    pub closed spec fn spec_dims(&self) -> (u32, u32) {
        (self.width, self.height)
    }

    /// Pairs a decoded image with the dimensions its producer reported.
    pub(crate) fn from_parts(image: image::DynamicImage, width: u32, height: u32) -> (r: Raster)
        ensures
            r.spec_dims() == (width, height),
    {
        Raster { image, width, height }
    }

    /// Gives the pixel buffer up, for handing it to an encoder.
    pub(crate) fn into_image(self) -> image::DynamicImage {
        self.image
    }

    /// Returns the size of the bitmap as width, height.
    pub fn dimensions(&self) -> (r: (u32, u32))
        ensures
            r == self.spec_dims(),
    {
        (self.width, self.height)
    }
}

/// Relies on `image::DynamicImage::resize_exact`: it returns a new image and
/// "`nwidth` and `nheight` are the new image's dimensions" (the aspect ratio
/// is not preserved). Resizing a raster held in memory does not fail.
#[verifier::external_body]
pub(crate) fn resize_exact_raster(source: &Raster, width: u32, height: u32, filter: FilterType) -> (r:
    Raster)
    ensures
        r.spec_dims() == (width, height),
{
    let filter = match filter {
        FilterType::Nearest => image::imageops::FilterType::Nearest,
        FilterType::Triangle => image::imageops::FilterType::Triangle,
        FilterType::CatmullRom => image::imageops::FilterType::CatmullRom,
        FilterType::Gaussian => image::imageops::FilterType::Gaussian,
        FilterType::Lanczos3 => image::imageops::FilterType::Lanczos3,
    };
    Raster { image: source.image.resize_exact(width, height, filter), width, height }
}

} // verus!

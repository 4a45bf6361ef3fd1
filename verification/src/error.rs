//! The failures the thumbnail pipeline reports.

use vstd::prelude::*;
use vstd::string::StringExecFns;

use crate::media::MediaType;

verus! {

#[verifier::external_type_specification]
#[verifier::external_body]
pub struct ExImageError(image::error::ImageError);

#[verifier::external_type_specification]
#[verifier::external_body]
pub struct ExIoError(std::io::Error);

pub type ThumbResult<T> = Result<T, ThumbError>;

/// A typed failure of the pipeline. Unsupported or corrupt input is reported
/// this way; it never panics the process.
#[derive(Debug)]
pub enum ThumbError {
    /// A filesystem or stream operation failed.
    IO(std::io::Error),
    /// A still-image codec reported a structured decode or encode failure.
    Image(image::error::ImageError),
    /// A codec signalled failure by absence rather than a diagnostic
    /// (the WebP path).
    Decode,
    /// The resolver found no strategy for the media type, or the video
    /// frame-extraction capability is unavailable.
    Unsupported(MediaType),
    /// No frame could be obtained from a stream that should hold video data.
    NullVideo,
    /// The external frame-extraction tool reported an error of its own.
    FFMPEG(String),
}

impl From<std::io::Error> for ThumbError {
    fn from(e: std::io::Error) -> (r: Self) {
        ThumbError::IO(e)
    }
}

impl vstd::std_specs::convert::FromSpecImpl<std::io::Error> for ThumbError {
    open spec fn obeys_from_spec() -> bool {
        true
    }

    open spec fn from_spec(e: std::io::Error) -> Self {
        ThumbError::IO(e)
    }
}

impl From<image::error::ImageError> for ThumbError {
    fn from(e: image::error::ImageError) -> (r: Self) {
        ThumbError::Image(e)
    }
}

impl vstd::std_specs::convert::FromSpecImpl<image::error::ImageError> for ThumbError {
    open spec fn obeys_from_spec() -> bool {
        true
    }

    open spec fn from_spec(e: image::error::ImageError) -> Self {
        ThumbError::Image(e)
    }
}

/// Relies on the `Display` impl of `image::error::ImageError` for the codec's
/// own diagnostic text.
#[verifier::external_body]
fn image_error_text(e: &image::error::ImageError) -> (r: String) {
    format!("{e}")
}

impl ThumbError {
    /// A short description of the failure, for callers that report it.
    pub fn message(&self) -> (r: String)
        ensures
            self is IO ==> r@ == "an io error occurred"@,
            self is Decode ==> r@ == "failed to decode image"@,
            self is Unsupported ==> r@ == "Unsupported media type "@
                + self->Unsupported_0.spec_name(),
            self is NullVideo ==> r@ == "no video data found in file"@,
            self is FFMPEG ==> r@ == "ffmpeg error: "@ + self->FFMPEG_0@,
            self is Image ==> r@.subrange(0, "an image error occurred "@.len() as int)
                == "an image error occurred "@,
    {
        match self {
            ThumbError::IO(_) => String::from_str("an io error occurred"),
            ThumbError::Image(e) => {
                let text = String::from_str("an image error occurred ");
                let codec_text = image_error_text(e);
                let r = text.concat(codec_text.as_str());
                proof {
                    assert(r@.subrange(0, "an image error occurred "@.len() as int)
                        =~= "an image error occurred "@);
                }
                r
            },
            ThumbError::Decode => String::from_str("failed to decode image"),
            ThumbError::Unsupported(mime) => String::from_str("Unsupported media type ").concat(
                mime.name().as_str(),
            ),
            ThumbError::NullVideo => String::from_str("no video data found in file"),
            ThumbError::FFMPEG(e) => String::from_str("ffmpeg error: ").concat(e.as_str()),
        }
    }
}

} // verus!

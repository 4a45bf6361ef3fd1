//! The library's own description of a media type, and the resolver that maps
//! it to a handling strategy.
//!
//! The surrounding application identifies input bytes with the `file_format`
//! crate; this module keeps only what the pipeline reads from such an
//! identification: the coarse kind of the media and, for the encodings the
//! still-image decoder distinguishes, a format tag.

use vstd::prelude::*;
use vstd::string::StringExecFns;

use file_format::FileFormat;
use file_format::Kind;

verus! {

/// The coarse classification of a media type, as the identification step
/// reports it.
#[derive(Clone, Copy, Debug, PartialEq, Eq, Structural)]
pub enum MediaKind {
    /// A still image.
    Image,
    /// A video stream.
    Video,
    /// Recognized, but neither an image nor a video.
    Other,
    /// Any remaining classification (audio, font, archive, ...).
    Unclassified,
}

/// The concrete encodings that the pipeline tells apart.
#[derive(Clone, Copy, Debug, PartialEq, Eq, Structural)]
pub enum FormatTag {
    Png,
    Jpeg,
    Bmp,
    Gif,
    Webp,
    /// The MPEG-4 part 14 container, recognized as a video source even when
    /// its kind is reported as `Other`.
    Mp4,
    /// Any encoding the pipeline has no special handling for.
    Other,
}

/// What the thumbnail pipeline knows about an input's media type.
#[derive(Clone, Copy, Debug, PartialEq, Eq, Structural)]
pub struct MediaType {
    pub kind: MediaKind,
    pub format: FormatTag,
}

impl MediaType {
    /// A PNG still image.
    pub fn png() -> (m: MediaType)
        ensures
            m == (MediaType { kind: MediaKind::Image, format: FormatTag::Png }),
    {
        MediaType { kind: MediaKind::Image, format: FormatTag::Png }
    }

    /// A JPEG still image.
    pub fn jpeg() -> (m: MediaType)
        ensures
            m == (MediaType { kind: MediaKind::Image, format: FormatTag::Jpeg }),
    {
        MediaType { kind: MediaKind::Image, format: FormatTag::Jpeg }
    }

    /// A Windows bitmap still image.
    pub fn bmp() -> (m: MediaType)
        ensures
            m == (MediaType { kind: MediaKind::Image, format: FormatTag::Bmp }),
    {
        MediaType { kind: MediaKind::Image, format: FormatTag::Bmp }
    }

    /// A GIF still image.
    pub fn gif() -> (m: MediaType)
        ensures
            m == (MediaType { kind: MediaKind::Image, format: FormatTag::Gif }),
    {
        MediaType { kind: MediaKind::Image, format: FormatTag::Gif }
    }

    /// A WebP still image.
    pub fn webp() -> (m: MediaType)
        ensures
            m == (MediaType { kind: MediaKind::Image, format: FormatTag::Webp }),
    {
        MediaType { kind: MediaKind::Image, format: FormatTag::Webp }
    }

    /// The MPEG-4 part 14 container, whose identified kind is `Other`.
    pub fn mp4() -> (m: MediaType)
        ensures
            m == (MediaType { kind: MediaKind::Other, format: FormatTag::Mp4 }),
    {
        MediaType { kind: MediaKind::Other, format: FormatTag::Mp4 }
    }

    /// An MPEG-4 part 14 video stream, identified as a video.
    pub fn mp4_video() -> (m: MediaType)
        ensures
            m == (MediaType { kind: MediaKind::Video, format: FormatTag::Mp4 }),
    {
        MediaType { kind: MediaKind::Video, format: FormatTag::Mp4 }
    }

    /// A media type of the given kind with no recognized encoding.
    pub fn of_kind(kind: MediaKind) -> (m: MediaType)
        ensures
            m == (MediaType { kind, format: FormatTag::Other }),
    {
        MediaType { kind, format: FormatTag::Other }
    }

    /// The short name of the media type: the recognized encoding where there
    /// is one, the coarse kind otherwise. Used when a failure names the
    /// media it was given.
    pub open spec fn spec_name(self) -> Seq<char> {
        match self.format {
            FormatTag::Png => "PNG"@,
            FormatTag::Jpeg => "JPEG"@,
            FormatTag::Bmp => "BMP"@,
            FormatTag::Gif => "GIF"@,
            FormatTag::Webp => "WebP"@,
            FormatTag::Mp4 => "MP4"@,
            FormatTag::Other => match self.kind {
                MediaKind::Image => "image"@,
                MediaKind::Video => "video"@,
                MediaKind::Other => "other"@,
                MediaKind::Unclassified => "unclassified"@,
            },
        }
    }

    /// The short name of the media type, as text.
    pub fn name(&self) -> (r: String)
        ensures
            r@ == self.spec_name(),
    {
        match self.format {
            FormatTag::Png => String::from_str("PNG"),
            FormatTag::Jpeg => String::from_str("JPEG"),
            FormatTag::Bmp => String::from_str("BMP"),
            FormatTag::Gif => String::from_str("GIF"),
            FormatTag::Webp => String::from_str("WebP"),
            FormatTag::Mp4 => String::from_str("MP4"),
            FormatTag::Other => match self.kind {
                MediaKind::Image => String::from_str("image"),
                MediaKind::Video => String::from_str("video"),
                MediaKind::Other => String::from_str("other"),
                MediaKind::Unclassified => String::from_str("unclassified"),
            },
        }
    }
}

/// How an identified media type is turned into one decodable still frame.
#[derive(Clone, Copy, Debug, PartialEq, Eq, Structural)]
pub enum Strategy {
    /// Decode the bytes directly with a still-image codec.
    DecodeImage,
    /// Obtain a still frame through the external video frame extractor.
    ExtractVideoFrame,
    /// No strategy: the media type cannot be thumbnailed.
    Unsupported,
}

/// The strategy the resolver selects: images are decoded directly, videos go
/// through frame extraction, and of the remaining kinds only the MPEG-4
/// part 14 container (classified as `Other`) is treated as a video.
pub open spec fn resolve_spec(media: MediaType) -> Strategy {
    match media.kind {
        MediaKind::Image => Strategy::DecodeImage,
        MediaKind::Video => Strategy::ExtractVideoFrame,
        MediaKind::Other => if media.format == FormatTag::Mp4 {
            Strategy::ExtractVideoFrame
        } else {
            Strategy::Unsupported
        },
        MediaKind::Unclassified => Strategy::Unsupported,
    }
}

/// Maps an identified media type to a handling strategy. Pure classification,
/// no side effects.
pub fn resolve(media: MediaType) -> (s: Strategy)
    ensures
        s == resolve_spec(media),
{
    match media.kind {
        MediaKind::Image => Strategy::DecodeImage,
        MediaKind::Video => Strategy::ExtractVideoFrame,
        MediaKind::Other => if media.format == FormatTag::Mp4 {
            Strategy::ExtractVideoFrame
        } else {
            Strategy::Unsupported
        },
        MediaKind::Unclassified => Strategy::Unsupported,
    }
}

/// The media type that identification of a byte prefix yields: a function of
/// the bytes alone.
pub uninterp spec fn sniffed_media(bytes: Seq<u8>) -> MediaType;

/// Relies on `file_format::FileFormat::from_bytes`: the identification is a
/// pure function of the bytes. Its result is narrowed to what the pipeline
/// reads from it — `FileFormat::kind` and the recognized encodings.
#[verifier::external_body]
pub fn sniff_media_type(bytes: &Vec<u8>) -> (m: MediaType)
    ensures
        m == sniffed_media(bytes@),
{
    match FileFormat::from_bytes(bytes.as_slice()) {
        FileFormat::PortableNetworkGraphics => MediaType::png(),
        FileFormat::JointPhotographicExpertsGroup => MediaType::jpeg(),
        FileFormat::WindowsBitmap => MediaType::bmp(),
        FileFormat::GraphicsInterchangeFormat => MediaType::gif(),
        FileFormat::Webp => MediaType::webp(),
        FileFormat::Mpeg4Part14 => MediaType::mp4(),
        ff => MediaType::of_kind(match ff.kind() {
            Kind::Image => MediaKind::Image,
            Kind::Video => MediaKind::Video,
            Kind::Other => MediaKind::Other,
            _ => MediaKind::Unclassified,
        }),
    }
}

} // verus!

//! Requested thumbnail dimensions: a handful of named presets and a custom
//! width/height pair.

use vstd::prelude::*;

verus! {

/// Represents fixed sizes of a thumbnail
#[derive(Clone, Copy, Debug)]
pub enum ThumbnailSize {
    Icon,
    Small,
    Medium,
    Large,
    Larger,
    Custom((u32, u32)),
}

impl ThumbnailSize {
    /// The width and height a thumbnail of this size request must have.
    pub open spec fn spec_dimensions(&self) -> (u32, u32) {
        match self {
            ThumbnailSize::Icon => (64u32, 64u32),
            ThumbnailSize::Small => (128u32, 128u32),
            ThumbnailSize::Medium => (256u32, 256u32),
            ThumbnailSize::Large => (512u32, 512u32),
            ThumbnailSize::Larger => (1024u32, 1024u32),
            ThumbnailSize::Custom(size) => *size,
        }
    }

    pub fn dimensions(&self) -> (r: (u32, u32))
        ensures
            r == self.spec_dimensions(),
    {
        match self {
            ThumbnailSize::Icon => (64, 64),
            ThumbnailSize::Small => (128, 128),
            ThumbnailSize::Medium => (256, 256),
            ThumbnailSize::Large => (512, 512),
            ThumbnailSize::Larger => (1024, 1024),
            ThumbnailSize::Custom(size) => *size,
        }
    }
}

} // verus!

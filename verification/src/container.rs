//! What a successfully probed audio container exposes: its tag blocks, with
//! their texts and pictures, and the length of its audio stream.

use vstd::prelude::*;
use crate::text::owned_text;

verus! {

/// A picture embedded in a tag block.
#[derive(Clone, Debug, PartialEq, Eq)]
pub struct EmbeddedPicture {
    /// The MIME type that the container declares for the picture, if any.
    pub mime: Option<String>,
    /// The picture's raw bytes.
    pub data: Vec<u8>,
}

/// A picture as a mathematical value.
pub struct EmbeddedPictureView {
    pub mime: Option<Seq<char>>,
    pub data: Seq<u8>,
}

impl View for EmbeddedPicture {
    type V = EmbeddedPictureView;

    open spec fn view(&self) -> EmbeddedPictureView {
        EmbeddedPictureView { mime: owned_text(self.mime), data: self.data@ }
    }
}

/// Pictures as mathematical values, in their order.
pub open spec fn picture_views(pictures: Seq<EmbeddedPicture>) -> Seq<EmbeddedPictureView> {
    Seq::new(pictures.len(), |i: int| pictures[i]@)
}

/// A tag block: a named metadata section of a container.
#[derive(Clone, Debug, PartialEq, Eq)]
pub struct TagBlock {
    pub title: Option<String>,
    pub artist: Option<String>,
    pub album: Option<String>,
    /// The embedded pictures, in the order in which the block holds them.
    pub pictures: Vec<EmbeddedPicture>,
}

/// A tag block as a mathematical value.
pub struct TagBlockView {
    pub title: Option<Seq<char>>,
    pub artist: Option<Seq<char>>,
    pub album: Option<Seq<char>>,
    pub pictures: Seq<EmbeddedPictureView>,
}

impl View for TagBlock {
    type V = TagBlockView;

    open spec fn view(&self) -> TagBlockView {
        TagBlockView {
            title: owned_text(self.title),
            artist: owned_text(self.artist),
            album: owned_text(self.album),
            pictures: picture_views(self.pictures@),
        }
    }
}

/// A probed container.
#[derive(Clone, Debug, PartialEq, Eq)]
pub struct Container {
    /// The tag block in the primary representation of the container's
    /// format, where the container holds one.
    pub primary_tag: Option<TagBlock>,
    /// The first tag block found in the container, where it holds any.
    pub first_tag: Option<TagBlock>,
    /// The whole seconds of the stream's duration.
    pub duration_secs: u64,
    /// The rest of the stream's duration, in nanoseconds.
    pub duration_subsec_nanos: u32,
}

/// A probed container as a mathematical value.
pub struct ContainerView {
    pub primary_tag: Option<TagBlockView>,
    pub first_tag: Option<TagBlockView>,
    pub duration_secs: u64,
    pub duration_subsec_nanos: u32,
}

/// An optional tag block as a mathematical value.
pub open spec fn tag_view(tag: Option<TagBlock>) -> Option<TagBlockView> {
    match tag {
        Some(t) => Some(t@),
        None => None,
    }
}

impl View for Container {
    type V = ContainerView;

    open spec fn view(&self) -> ContainerView {
        ContainerView {
            primary_tag: tag_view(self.primary_tag),
            first_tag: tag_view(self.first_tag),
            duration_secs: self.duration_secs,
            duration_subsec_nanos: self.duration_subsec_nanos,
        }
    }
}

impl ContainerView {
    /// The stream's duration in nanoseconds.
    pub open spec fn duration_nanos(self) -> int {
        self.duration_secs * 1_000_000_000 + self.duration_subsec_nanos
    }

    /// The part below a second is less than a second.
    pub open spec fn well_formed(self) -> bool {
        self.duration_subsec_nanos < 1_000_000_000
    }
}

} // verus!

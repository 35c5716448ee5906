//! Probing: from the bytes of a file to a `Container`, by way of lofty.
//!
//! lofty's parsed values are opaque here. What a parsed tag and a parsed file
//! hold is given a name each, and `tag_view` and `file_view` put the names
//! together into the plain values that the rest of the library works on.

use vstd::prelude::*;
use vstd::slice::slice_to_vec;
use crate::container::{picture_views, Container, ContainerView, EmbeddedPicture,
    EmbeddedPictureView, TagBlock, TagBlockView};
use crate::text::owned_text;

verus! {

/// `lofty::file::TaggedFile`: a parsed file. Nothing inside it is visible to
/// the verifier.
#[verifier::external_type_specification]
#[verifier::external_body]
pub struct ExTaggedFile(lofty::file::TaggedFile);

/// `lofty::tag::Tag`: a parsed tag. Nothing inside it is visible to the
/// verifier.
#[verifier::external_type_specification]
#[verifier::external_body]
pub struct ExTag(lofty::tag::Tag);

/// `lofty::picture::Picture`: a picture of a tag. Nothing inside it is visible
/// to the verifier.
#[verifier::external_type_specification]
#[verifier::external_body]
pub struct ExPicture(lofty::picture::Picture);

/// Whether lofty knows the type of a file: the type is one of lofty's own, or
/// a custom type whose resolver is registered. Of such a file lofty can tell
/// the primary tag type; of any other, asking for it panics.
pub uninterp spec fn file_type_known(file: lofty::file::TaggedFile) -> bool;

/// The bytes that a picture holds.
pub uninterp spec fn picture_bytes(picture: lofty::picture::Picture) -> Seq<u8>;

/// The MIME type that a picture declares, as text, if it declares one.
pub uninterp spec fn picture_mime_text(picture: lofty::picture::Picture) -> Option<Seq<char>>;

/// The pictures that a tag holds, in stored order.
pub uninterp spec fn tag_pictures_held(tag: lofty::tag::Tag) -> Seq<EmbeddedPictureView>;

/// The title that a tag holds, if it holds one.
pub uninterp spec fn tag_title_text(tag: lofty::tag::Tag) -> Option<Seq<char>>;

/// The artist that a tag holds, if it holds one.
pub uninterp spec fn tag_artist_text(tag: lofty::tag::Tag) -> Option<Seq<char>>;

/// The album that a tag holds, if it holds one.
pub uninterp spec fn tag_album_text(tag: lofty::tag::Tag) -> Option<Seq<char>>;

/// The tag of the primary tag type of a file's format, if the file holds one.
pub uninterp spec fn file_primary_block(file: lofty::file::TaggedFile) -> Option<TagBlockView>;

/// The first of the tags that a file holds, if it holds any.
pub uninterp spec fn file_first_block(file: lofty::file::TaggedFile) -> Option<TagBlockView>;

/// The duration in a file's properties: its whole seconds, and the
/// nanoseconds below a second.
pub uninterp spec fn file_duration(file: lofty::file::TaggedFile) -> (u64, u32);

/// A picture of lofty as a plain value.
pub open spec fn picture_view(picture: lofty::picture::Picture) -> EmbeddedPictureView {
    EmbeddedPictureView { mime: picture_mime_text(picture), data: picture_bytes(picture) }
}

/// Pictures of lofty as plain values, in their order.
pub open spec fn picture_seq_view(pictures: Seq<lofty::picture::Picture>) -> Seq<
    EmbeddedPictureView,
> {
    Seq::new(pictures.len(), |i: int| picture_view(pictures[i]))
}

/// A tag of lofty as a plain value: its three texts and all its pictures.
pub open spec fn tag_view(tag: lofty::tag::Tag) -> TagBlockView {
    TagBlockView {
        title: tag_title_text(tag),
        artist: tag_artist_text(tag),
        album: tag_album_text(tag),
        pictures: tag_pictures_held(tag),
    }
}

/// An optional tag of lofty as a plain value.
pub open spec fn optional_tag_view(tag: Option<&lofty::tag::Tag>) -> Option<TagBlockView> {
    match tag {
        Some(t) => Some(tag_view(*t)),
        None => None,
    }
}

/// A file of lofty as a plain value: its primary tag, its first tag and its
/// duration.
pub open spec fn file_view(file: lofty::file::TaggedFile) -> ContainerView {
    ContainerView {
        primary_tag: file_primary_block(file),
        first_tag: file_first_block(file),
        duration_secs: file_duration(file).0,
        duration_subsec_nanos: file_duration(file).1,
    }
}

/// Whether `container` is what some parsed file holds.
pub open spec fn probed(container: ContainerView) -> bool {
    &&& container.well_formed()
    &&& exists|file: lofty::file::TaggedFile| container == #[trigger] file_view(file)
}

/// `lofty::file::AudioFile::read_from` for `TaggedFile`, on the bytes of a
/// file and with the default parse options: it guesses the container format
/// from the content and reads the file as that format. `None` where lofty
/// reports an error. While it parses, lofty consults the options set for the
/// thread and the resolvers registered in the process, so nothing is claimed
/// of what the file holds. Its type is known: lofty's readers give the file
/// their own type, and a custom type is read only through the resolver that
/// is registered for it.
#[verifier::external_body]
fn read_tagged_file(bytes: &[u8]) -> (file: Option<lofty::file::TaggedFile>)
    ensures
        file matches Some(f) ==> file_type_known(f),
{
    let mut reader = std::io::Cursor::new(bytes);
    let options = lofty::config::ParseOptions::new();
    <lofty::file::TaggedFile as lofty::file::AudioFile>::read_from(&mut reader, options).ok()
}

/// `lofty::file::TaggedFileExt::primary_tag`: the tag of the file type's
/// primary tag type, if the file holds one. lofty panics on a custom file
/// type that is not registered, which `requires` leaves out.
#[verifier::external_body]
fn primary_tag(file: &lofty::file::TaggedFile) -> (tag: Option<&lofty::tag::Tag>)
    requires
        file_type_known(*file),
    ensures
        optional_tag_view(tag) == file_primary_block(*file),
{
    lofty::file::TaggedFileExt::primary_tag(file)
}

/// `lofty::file::TaggedFileExt::first_tag`: the first of the file's tags, if
/// it has any.
#[verifier::external_body]
fn first_tag(file: &lofty::file::TaggedFile) -> (tag: Option<&lofty::tag::Tag>)
    ensures
        optional_tag_view(tag) == file_first_block(*file),
{
    lofty::file::TaggedFileExt::first_tag(file)
}

/// `lofty::properties::FileProperties::duration` of the file's properties,
/// as the whole seconds and the nanoseconds below a second that
/// `std::time::Duration` holds; std documents the latter to be less than a
/// second.
#[verifier::external_body]
fn stream_duration(file: &lofty::file::TaggedFile) -> (duration: (u64, u32))
    ensures
        duration == file_duration(*file),
        duration.1 < 1_000_000_000,
{
    let duration = lofty::file::AudioFile::properties(file).duration();
    (duration.as_secs(), duration.subsec_nanos())
}

/// `lofty::tag::Accessor::title` of a tag, as an owned string.
#[verifier::external_body]
fn tag_title(tag: &lofty::tag::Tag) -> (text: Option<String>)
    ensures
        owned_text(text) == tag_title_text(*tag),
{
    lofty::tag::Accessor::title(tag).map(|s| s.into_owned())
}

/// `lofty::tag::Accessor::artist` of a tag, as an owned string.
#[verifier::external_body]
fn tag_artist(tag: &lofty::tag::Tag) -> (text: Option<String>)
    ensures
        owned_text(text) == tag_artist_text(*tag),
{
    lofty::tag::Accessor::artist(tag).map(|s| s.into_owned())
}

/// `lofty::tag::Accessor::album` of a tag, as an owned string.
#[verifier::external_body]
fn tag_album(tag: &lofty::tag::Tag) -> (text: Option<String>)
    ensures
        owned_text(text) == tag_album_text(*tag),
{
    lofty::tag::Accessor::album(tag).map(|s| s.into_owned())
}

/// `lofty::tag::Tag::pictures`: the tag's pictures, in stored order.
#[verifier::external_body]
fn tag_pictures(tag: &lofty::tag::Tag) -> (pictures: &[lofty::picture::Picture])
    ensures
        picture_seq_view(pictures@) == tag_pictures_held(*tag),
{
    tag.pictures()
}

/// `lofty::picture::Picture::mime_type` of a picture, as the string that
/// `lofty::picture::MimeType::as_str` gives for it.
#[verifier::external_body]
fn picture_mime(picture: &lofty::picture::Picture) -> (mime: Option<String>)
    ensures
        owned_text(mime) == picture_mime_text(*picture),
{
    picture.mime_type().map(|m| m.as_str().to_owned())
}

/// `lofty::picture::Picture::data`: the picture's bytes.
#[verifier::external_body]
fn picture_data(picture: &lofty::picture::Picture) -> (data: &[u8])
    ensures
        data@ == picture_bytes(*picture),
{
    picture.data()
}

/// Takes a tag's texts and pictures out of lofty's representation: the block
/// holds the tag's title, artist and album, and each of its pictures with its
/// MIME type and bytes, in the tag's order.
fn tag_block(tag: &lofty::tag::Tag) -> (block: TagBlock)
    ensures
        block@ == tag_view(*tag),
{
    let found = tag_pictures(tag);
    let mut pictures: Vec<EmbeddedPicture> = Vec::new();
    let mut i: usize = 0;
    while i < found.len()
        invariant
            i <= found@.len(),
            pictures@.len() == i,
            forall|k: int| 0 <= k < i ==> (#[trigger] pictures@[k])@ == picture_view(found@[k]),
            picture_seq_view(found@) == tag_pictures_held(*tag),
        decreases found@.len() - i,
    {
        let picture = &found[i];
        pictures.push(
            EmbeddedPicture { mime: picture_mime(picture), data: slice_to_vec(picture_data(picture)) },
        );
        i += 1;
    }
    let block = TagBlock {
        title: tag_title(tag),
        artist: tag_artist(tag),
        album: tag_album(tag),
        pictures,
    };
    proof {
        assert(picture_views(block.pictures@) =~= tag_view(*tag).pictures);
    }
    block
}

/// Takes an optional tag out of lofty's representation.
fn optional_tag_block(tag: Option<&lofty::tag::Tag>) -> (block: Option<TagBlock>)
    ensures
        crate::container::tag_view(block) == optional_tag_view(tag),
{
    match tag {
        Some(t) => Some(tag_block(t)),
        None => None,
    }
}

/// Takes out of a parsed file what the library reads of it: the primary tag,
/// the first tag and the stream's duration.
fn container_of(file: &lofty::file::TaggedFile) -> (container: Container)
    requires
        file_type_known(*file),
    ensures
        container@ == file_view(*file),
        container@.well_formed(),
{
    let duration = stream_duration(file);
    Container {
        primary_tag: optional_tag_block(primary_tag(file)),
        first_tag: optional_tag_block(first_tag(file)),
        duration_secs: duration.0,
        duration_subsec_nanos: duration.1,
    }
}

/// Probes the bytes of a file: detects the container format from the content
/// and reads its tag blocks and stream properties. `None` where the format
/// is not recognised or the container cannot be parsed. Which bytes parse,
/// and into what, is decided by lofty; a container that is returned is that
/// of the file that lofty parsed.
pub fn read_container(bytes: &[u8]) -> (container: Option<Container>)
    ensures
        container matches Some(c) ==> probed(c@),
{
    match read_tagged_file(bytes) {
        Some(file) => Some(container_of(&file)),
        None => None,
    }
}

} // verus!

//! The metadata extractor: from a validated candidate and its probed
//! container to the record that is shown.

use vstd::prelude::*;
use crate::container::{Container, ContainerView, EmbeddedPictureView, TagBlock, TagBlockView};
use crate::cover::{cover_text, cover_uri, data_uri, lemma_data_uri_parts, lemma_jpeg_header,
    lemma_payload_round_trip, mime_or_default, payload, uri_header};
use crate::encoding::{decode, encodable, encode, encoded_len, lemma_encode_len};
use crate::path::{extension_allowed, extension_in, is_valid_candidate, path_extension,
    valid_candidate, EntryKind};
use crate::probe::{probed, read_container};
use crate::text::{borrow_text, copy_text, owned_text, text_of};

verus! {

/// The record shown for an audio file. Every field may be absent by itself.
#[derive(Clone, Debug, PartialEq, Eq)]
pub struct AudioMetadata {
    pub title: Option<String>,
    pub artist: Option<String>,
    pub album: Option<String>,
    /// The duration in whole seconds.
    pub duration: Option<u64>,
    /// The first embedded picture, as a data URI.
    pub cover: Option<String>,
}

/// A record as a mathematical value.
pub struct AudioMetadataView {
    pub title: Option<Seq<char>>,
    pub artist: Option<Seq<char>>,
    pub album: Option<Seq<char>>,
    pub duration: Option<u64>,
    pub cover: Option<Seq<char>>,
}

impl View for AudioMetadata {
    type V = AudioMetadataView;

    open spec fn view(&self) -> AudioMetadataView {
        AudioMetadataView {
            title: owned_text(self.title),
            artist: owned_text(self.artist),
            album: owned_text(self.album),
            duration: self.duration,
            cover: owned_text(self.cover),
        }
    }
}

/// An optional record as a mathematical value.
pub open spec fn record_view(record: Option<AudioMetadata>) -> Option<AudioMetadataView> {
    match record {
        Some(r) => Some(r@),
        None => None,
    }
}

/// The authoritative tag block of a container: the primary one if there is
/// one, else the first one.
pub open spec fn selected_tag(container: ContainerView) -> Option<TagBlockView> {
    if container.primary_tag is Some {
        container.primary_tag
    } else {
        container.first_tag
    }
}

/// The first picture of a tag block, if it holds any.
pub open spec fn first_picture(tag: TagBlockView) -> Option<EmbeddedPictureView> {
    if tag.pictures.len() > 0 {
        Some(tag.pictures[0])
    } else {
        None
    }
}

/// The cover taken from a tag block: the data URI of its first picture.
pub open spec fn cover_of(tag: TagBlockView) -> Option<Seq<char>> {
    match first_picture(tag) {
        Some(picture) => cover_text(picture.mime, picture.data),
        None => None,
    }
}

/// The record for a probed container.
pub open spec fn assembled(container: ContainerView) -> AudioMetadataView {
    match selected_tag(container) {
        Some(tag) => AudioMetadataView {
            title: tag.title,
            artist: tag.artist,
            album: tag.album,
            duration: Some(container.duration_secs),
            cover: cover_of(tag),
        },
        None => AudioMetadataView {
            title: None,
            artist: None,
            album: None,
            duration: Some(container.duration_secs),
            cover: None,
        },
    }
}

/// The outcome of an extraction: the record for the container, if the
/// candidate is valid and its container could be probed.
pub open spec fn extracted(
    entry: EntryKind,
    extension: Option<Seq<char>>,
    container: Option<ContainerView>,
) -> Option<AudioMetadataView> {
    if valid_candidate(entry, extension) {
        match container {
            Some(c) => Some(assembled(c)),
            None => None,
        }
    } else {
        None
    }
}

/// An optional container as a mathematical value.
pub open spec fn container_view(container: Option<&Container>) -> Option<ContainerView> {
    match container {
        Some(c) => Some(c@),
        None => None,
    }
}

/// Selects the authoritative tag block of a container.
pub fn select_tag(container: &Container) -> (tag: Option<&TagBlock>)
    ensures
        match tag {
            Some(t) => selected_tag(container@) == Some(t@),
            None => selected_tag(container@) is None,
        },
{
    match &container.primary_tag {
        Some(t) => Some(t),
        None => match &container.first_tag {
            Some(t) => Some(t),
            None => None,
        },
    }
}

/// Writes the cover for a tag block from its first picture.
pub fn cover_for(tag: &TagBlock) -> (cover: Option<String>)
    ensures
        owned_text(cover) == cover_of(tag@),
{
    if tag.pictures.len() > 0 {
        let picture = &tag.pictures[0];
        cover_uri(borrow_text(&picture.mime), picture.data.as_slice())
    } else {
        None
    }
}

/// Builds the record for a probed container.
pub fn assemble(container: &Container) -> (record: AudioMetadata)
    ensures
        record@ == assembled(container@),
{
    match select_tag(container) {
        Some(tag) => AudioMetadata {
            title: copy_text(&tag.title),
            artist: copy_text(&tag.artist),
            album: copy_text(&tag.album),
            duration: Some(container.duration_secs),
            cover: cover_for(tag),
        },
        None => AudioMetadata {
            title: None,
            artist: None,
            album: None,
            duration: Some(container.duration_secs),
            cover: None,
        },
    }
}

/// Extracts the record for a candidate. `entry` and `extension` describe the
/// path as for `is_valid_candidate`; `container` is the probed container, or
/// `None` where the file could not be read or probed. An invalid candidate, an
/// unreadable file and an unparseable container all give `None`.
pub fn extract(entry: EntryKind, extension: Option<&str>, container: Option<&Container>) -> (record:
    Option<AudioMetadata>)
    ensures
        record_view(record) == extracted(entry, text_of(extension), container_view(container)),
        entry != EntryKind::File ==> record is None,
        !valid_candidate(entry, text_of(extension)) ==> record is None,
        container is None ==> record is None,
        valid_candidate(entry, text_of(extension)) && container is Some ==> record is Some,
{
    if !is_valid_candidate(entry, extension) {
        return None;
    }
    match container {
        Some(c) => Some(assemble(c)),
        None => None,
    }
}

/// Produces the record for the file at `path`. `entry` is what the
/// filesystem reports for the path, and `contents` the bytes of the file, or
/// `None` where it could not be read. The path is validated with the
/// extension found in it; an invalid path gives `None` whatever the file
/// holds, and so does a file that could not be read. Otherwise the contents
/// are probed, and the record is the one that `extracted` gives for the
/// outcome of the probe: `None` where lofty could not parse the contents, else
/// the record assembled from the parsed file.
pub fn get_metadata(path: &str, entry: EntryKind, contents: Option<&[u8]>) -> (record: Option<
    AudioMetadata,
>)
    ensures
        exists|outcome: Option<ContainerView>|
            {
                &&& contents is None ==> outcome is None
                &&& outcome matches Some(container) ==> probed(container)
                &&& record_view(record) == #[trigger] extracted(
                    entry,
                    extension_in(path@),
                    outcome,
                )
            },
        !valid_candidate(entry, extension_in(path@)) ==> record is None,
        entry != EntryKind::File ==> record is None,
        contents is None ==> record is None,
        record matches Some(r) ==> exists|container: ContainerView|
            probed(container) && r@ == #[trigger] assembled(container),
{
    let extension = path_extension(path);
    let extension = borrow_text(&extension);
    if !is_valid_candidate(entry, extension) {
        proof {
            let outcome: Option<ContainerView> = None;
            assert(record_view(None::<AudioMetadata>) == extracted(
                entry,
                extension_in(path@),
                outcome,
            ));
        }
        return None;
    }
    let container = match contents {
        Some(bytes) => read_container(bytes),
        None => None,
    };
    let probe = container.as_ref();
    let record = extract(entry, extension, probe);
    proof {
        let outcome = container_view(probe);
        assert(record_view(record) == extracted(entry, extension_in(path@), outcome));
    }
    record
}

/// Nothing is extracted for a path that does not exist, for a directory or
/// another entry that is no regular file, for a path without an allowed
/// extension, whatever the file holds, and for a file whose container could
/// not be probed. In every other case a record is extracted.
pub proof fn lemma_absent_outcomes(
    entry: EntryKind,
    extension: Option<Seq<char>>,
    container: Option<ContainerView>,
)
    ensures
        entry == EntryKind::Missing ==> extracted(entry, extension, container) is None,
        entry == EntryKind::Directory ==> extracted(entry, extension, container) is None,
        entry == EntryKind::Special ==> extracted(entry, extension, container) is None,
        extension is None ==> extracted(entry, extension, container) is None,
        extension matches Some(ext) && !extension_allowed(ext) ==> extracted(
            entry,
            extension,
            container,
        ) is None,
        container is None ==> extracted(entry, extension, container) is None,
        entry == EntryKind::File && container is Some && (extension matches Some(ext)
            && extension_allowed(ext)) ==> extracted(entry, extension, container) is Some,
{
}

/// Without a tag block, or with one that embeds no picture, the record has no
/// cover; its other fields are those of the selected tag block and the
/// stream's whole seconds.
pub proof fn lemma_cover_needs_picture(container: ContainerView)
    requires
        selected_tag(container) matches Some(tag) ==> tag.pictures.len() == 0,
    ensures
        assembled(container).cover is None,
        assembled(container).duration == Some(container.duration_secs),
        selected_tag(container) matches Some(tag) ==> {
            &&& assembled(container).title == tag.title
            &&& assembled(container).artist == tag.artist
            &&& assembled(container).album == tag.album
        },
        selected_tag(container) is None ==> {
            &&& assembled(container).title is None
            &&& assembled(container).artist is None
            &&& assembled(container).album is None
        },
{
}

/// The cover is made of the first picture of the selected tag block, and of
/// nothing else. Where the picture's base64 text fits in one allocation, the
/// cover is `data:`, the picture's declared MIME type or else `image/jpeg`,
/// `;base64,` and the picture's bytes in standard base64; the payload has four
/// characters for every three bytes, and decodes to exactly the picture's
/// bytes. Where the text does not fit, there is no cover.
pub proof fn lemma_first_picture_is_the_cover(container: ContainerView)
    requires
        selected_tag(container) is Some,
        selected_tag(container)->0.pictures.len() >= 1,
    ensures
        ({
            let picture = selected_tag(container)->0.pictures[0];
            let cover = assembled(container).cover;
            &&& encodable(picture.data.len()) ==> {
                &&& cover == Some(
                    uri_header(mime_or_default(picture.mime)) + encode(picture.data),
                )
                &&& payload(picture.mime, cover->0) == encode(picture.data)
                &&& payload(picture.mime, cover->0).len() == encoded_len(picture.data.len())
                &&& decode(payload(picture.mime, cover->0)) == Some(picture.data)
            }
            &&& !encodable(picture.data.len()) ==> cover is None
        }),
{
    let picture = selected_tag(container)->0.pictures[0];
    lemma_data_uri_parts(picture.mime, picture.data);
    lemma_payload_round_trip(picture.mime, picture.data);
    lemma_encode_len(picture.data);
}

/// A cover is the data URI of the first picture of the selected tag block,
/// and its payload decodes to exactly that picture's bytes.
pub proof fn lemma_cover_round_trip(container: ContainerView)
    requires
        assembled(container).cover is Some,
    ensures
        selected_tag(container) is Some,
        first_picture(selected_tag(container)->0) is Some,
        ({
            let picture = first_picture(selected_tag(container)->0)->0;
            let cover = assembled(container).cover->0;
            &&& cover == data_uri(picture.mime, picture.data)
            &&& decode(payload(picture.mime, cover)) == Some(picture.data)
        }),
{
    let picture = first_picture(selected_tag(container)->0)->0;
    lemma_payload_round_trip(picture.mime, picture.data);
}

/// Where the first picture of the selected tag block declares `image/jpeg`
/// or no MIME type, and can be encoded, the cover is present and starts with
/// `data:image/jpeg;base64,`.
pub proof fn lemma_jpeg_cover(container: ContainerView)
    requires
        selected_tag(container) is Some,
        first_picture(selected_tag(container)->0) matches Some(picture) && encodable(
            picture.data.len(),
        ) && (picture.mime is None || picture.mime == Some("image/jpeg"@)),
    ensures
        assembled(container).cover is Some,
        "data:image/jpeg;base64,"@.is_prefix_of(assembled(container).cover->0),
{
    let picture = first_picture(selected_tag(container)->0)->0;
    lemma_jpeg_header(picture.mime, picture.data);
}

/// A well-formed container whose selected tag block holds a title, an artist,
/// an album and a first picture declared as `image/jpeg` gives a record with
/// all of them: the three texts as the block holds them, the duration rounded
/// down to whole seconds, and a cover that starts with
/// `data:image/jpeg;base64,`.
pub proof fn lemma_complete_record(container: ContainerView)
    requires
        container.well_formed(),
        selected_tag(container) is Some,
        selected_tag(container)->0.title is Some,
        selected_tag(container)->0.artist is Some,
        selected_tag(container)->0.album is Some,
        first_picture(selected_tag(container)->0) matches Some(picture) && encodable(
            picture.data.len(),
        ) && picture.mime == Some("image/jpeg"@),
    ensures
        assembled(container).title == selected_tag(container)->0.title,
        assembled(container).artist == selected_tag(container)->0.artist,
        assembled(container).album == selected_tag(container)->0.album,
        assembled(container).duration == Some(
            (container.duration_nanos() / 1_000_000_000) as u64,
        ),
        assembled(container).cover is Some,
        "data:image/jpeg;base64,"@.is_prefix_of(assembled(container).cover->0),
{
    lemma_jpeg_cover(container);
}

/// The duration shown is the stream's duration rounded down to whole seconds.
pub proof fn lemma_duration_rounds_down(container: ContainerView)
    requires
        container.well_formed(),
    ensures
        assembled(container).duration == Some(
            (container.duration_nanos() / 1_000_000_000) as u64,
        ),
{
}

/// Extraction is a function of the candidate and the probed container: two
/// runs on the same input give records with the same fields, character for
/// character.
pub proof fn lemma_extraction_repeats(
    entry: EntryKind,
    extension: Option<Seq<char>>,
    container: Option<ContainerView>,
    first: Option<AudioMetadata>,
    second: Option<AudioMetadata>,
)
    requires
        record_view(first) == extracted(entry, extension, container),
        record_view(second) == extracted(entry, extension, container),
    ensures
        record_view(first) == record_view(second),
{
}

} // verus!

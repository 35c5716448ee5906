use audio_metadata::metadata::{get_metadata, AudioMetadata};
use audio_metadata::path::EntryKind;
use audio_metadata::probe::read_container;
use base64::prelude::{Engine, BASE64_STANDARD};

const JPEG: [u8; 12] = [0xff, 0xd8, 0xff, 0xe0, 0x00, 0x10, b'J', b'F', b'I', b'F', 0x00, 0x01];

fn text(s: &str) -> Option<String> {
    Some(s.to_string())
}

fn chunk(id: &[u8; 4], body: &[u8]) -> Vec<u8> {
    let mut out = id.to_vec();
    out.extend_from_slice(&(body.len() as u32).to_le_bytes());
    out.extend_from_slice(body);
    if body.len() % 2 == 1 {
        out.push(0);
    }
    out
}

/// A mono, 8-bit PCM stream of 1000 samples per second that is `millis` long.
fn wav(millis: usize, tag_chunks: &[Vec<u8>]) -> Vec<u8> {
    let mut fmt = Vec::new();
    fmt.extend_from_slice(&1u16.to_le_bytes());
    fmt.extend_from_slice(&1u16.to_le_bytes());
    fmt.extend_from_slice(&1000u32.to_le_bytes());
    fmt.extend_from_slice(&1000u32.to_le_bytes());
    fmt.extend_from_slice(&1u16.to_le_bytes());
    fmt.extend_from_slice(&8u16.to_le_bytes());
    let mut body = b"WAVE".to_vec();
    body.extend(chunk(b"fmt ", &fmt));
    body.extend(chunk(b"data", &vec![0x80; millis]));
    for c in tag_chunks {
        body.extend_from_slice(c);
    }
    let mut out = b"RIFF".to_vec();
    out.extend_from_slice(&(body.len() as u32).to_le_bytes());
    out.extend(body);
    out
}

fn synchsafe(n: usize) -> [u8; 4] {
    [(n >> 21) as u8 & 0x7f, (n >> 14) as u8 & 0x7f, (n >> 7) as u8 & 0x7f, n as u8 & 0x7f]
}

fn frame(id: &[u8; 4], body: &[u8]) -> Vec<u8> {
    let mut out = id.to_vec();
    out.extend_from_slice(&synchsafe(body.len()));
    out.extend_from_slice(&[0, 0]);
    out.extend_from_slice(body);
    out
}

fn text_frame(id: &[u8; 4], value: &str) -> Vec<u8> {
    let mut body = vec![3];
    body.extend_from_slice(value.as_bytes());
    frame(id, &body)
}

fn picture_frame(mime: &str, data: &[u8]) -> Vec<u8> {
    let mut body = vec![0];
    body.extend_from_slice(mime.as_bytes());
    body.push(0);
    body.push(3);
    body.push(0);
    body.extend_from_slice(data);
    frame(b"APIC", &body)
}

fn id3v2(frames: &[Vec<u8>]) -> Vec<u8> {
    let body: Vec<u8> = frames.concat();
    let mut out = b"ID3".to_vec();
    out.extend_from_slice(&[4, 0, 0]);
    out.extend_from_slice(&synchsafe(body.len()));
    out.extend(body);
    out
}

fn id3_chunk(frames: &[Vec<u8>]) -> Vec<u8> {
    chunk(b"id3 ", &id3v2(frames))
}

fn info_chunk(title: &str, artist: &str, album: &str) -> Vec<u8> {
    let mut body = b"INFO".to_vec();
    for (id, value) in [(b"INAM", title), (b"IART", artist), (b"IPRD", album)] {
        let mut item = value.as_bytes().to_vec();
        item.push(0);
        body.extend(chunk(id, &item));
    }
    chunk(b"LIST", &body)
}

fn tagged_wav() -> Vec<u8> {
    wav(
        2500,
        &[id3_chunk(&[
            text_frame(b"TIT2", "Night Drive"),
            text_frame(b"TPE1", "The Examples"),
            text_frame(b"TALB", "Test Tones"),
            picture_frame("image/jpeg", &JPEG),
        ])],
    )
}

#[test]
fn complete_file_gives_a_complete_record() {
    let record = get_metadata("song.wav", EntryKind::File, Some(&tagged_wav())).expect("a record");
    assert_eq!(
        record,
        AudioMetadata {
            title: text("Night Drive"),
            artist: text("The Examples"),
            album: text("Test Tones"),
            duration: Some(2),
            cover: text("data:image/jpeg;base64,/9j/4AAQSkZJRgAB"),
        }
    );
    assert!(record.cover.unwrap().starts_with("data:image/jpeg;base64,"));
}

#[test]
fn cover_payload_decodes_to_the_picture() {
    let record = get_metadata("song.wav", EntryKind::File, Some(&tagged_wav())).expect("a record");
    let cover = record.cover.expect("a cover");
    let payload = cover.strip_prefix("data:image/jpeg;base64,").expect("the header");
    assert_eq!(BASE64_STANDARD.decode(payload).expect("valid base64"), JPEG);
}

#[test]
fn file_without_picture_has_no_cover() {
    let bytes = wav(
        4000,
        &[id3_chunk(&[text_frame(b"TIT2", "No Art"), text_frame(b"TPE1", "Somebody")])],
    );
    assert_eq!(
        get_metadata("plain.WAV", EntryKind::File, Some(&bytes)),
        Some(AudioMetadata {
            title: text("No Art"),
            artist: text("Somebody"),
            album: None,
            duration: Some(4),
            cover: None,
        })
    );
}

#[test]
fn file_without_tags_has_only_the_duration() {
    assert_eq!(
        get_metadata("bare.wav", EntryKind::File, Some(&wav(1999, &[]))),
        Some(AudioMetadata {
            title: None,
            artist: None,
            album: None,
            duration: Some(1),
            cover: None,
        })
    );
}

#[test]
fn picture_with_another_mime_type_keeps_it() {
    let bytes = wav(1000, &[id3_chunk(&[picture_frame("image/png", &[0x89, b'P', b'N', b'G'])])]);
    let record = get_metadata("art.wav", EntryKind::File, Some(&bytes)).expect("a record");
    assert_eq!(record.cover, text("data:image/png;base64,iVBORw=="));
}

#[test]
fn file_picture_without_mime_type_is_shown_as_jpeg() {
    let bytes = wav(1000, &[id3_chunk(&[picture_frame("", b"Man")])]);
    let record = get_metadata("art.wav", EntryKind::File, Some(&bytes)).expect("a record");
    assert_eq!(record.cover, text("data:image/jpeg;base64,TWFu"));
}

#[test]
fn only_the_first_picture_of_a_file_is_shown() {
    let bytes = wav(
        1000,
        &[id3_chunk(&[picture_frame("image/png", b"foo"), picture_frame("image/jpeg", b"bar")])],
    );
    let record = get_metadata("art.wav", EntryKind::File, Some(&bytes)).expect("a record");
    assert_eq!(record.cover, text("data:image/png;base64,Zm9v"));
}

#[test]
fn primary_tag_of_a_file_is_preferred() {
    let bytes = wav(
        3000,
        &[
            info_chunk("Info Title", "Info Artist", "Info Album"),
            id3_chunk(&[text_frame(b"TIT2", "Id3 Title")]),
        ],
    );
    let container = read_container(&bytes).expect("a container");
    assert_eq!(container.first_tag.expect("a first tag").title, text("Info Title"));
    assert_eq!(container.primary_tag.expect("a primary tag").title, text("Id3 Title"));
    let record = get_metadata("both.wav", EntryKind::File, Some(&bytes)).expect("a record");
    assert_eq!(record.title, text("Id3 Title"));
    assert_eq!(record.artist, None);
}

#[test]
fn first_tag_of_a_file_is_the_fallback() {
    let bytes = wav(3000, &[info_chunk("Info Title", "Info Artist", "Info Album")]);
    let container = read_container(&bytes).expect("a container");
    assert_eq!(container.primary_tag, None);
    assert_eq!(
        get_metadata("info.wav", EntryKind::File, Some(&bytes)),
        Some(AudioMetadata {
            title: text("Info Title"),
            artist: text("Info Artist"),
            album: text("Info Album"),
            duration: Some(3),
            cover: None,
        })
    );
}

#[test]
fn container_holds_the_stream_duration() {
    let container = read_container(&wav(2500, &[])).expect("a container");
    assert_eq!(container.duration_secs, 2);
    assert_eq!(container.duration_subsec_nanos, 500_000_000);
}

#[test]
fn format_is_found_in_the_content() {
    let record = get_metadata("song.mp3", EntryKind::File, Some(&tagged_wav())).expect("a record");
    assert_eq!(record.title, text("Night Drive"));
}

#[test]
fn missing_path_gives_nothing() {
    assert_eq!(get_metadata("gone.wav", EntryKind::Missing, None), None);
    assert_eq!(get_metadata("gone.wav", EntryKind::Missing, Some(&tagged_wav())), None);
}

#[test]
fn directory_gives_nothing() {
    assert_eq!(get_metadata("music.wav", EntryKind::Directory, None), None);
    assert_eq!(get_metadata("music.wav", EntryKind::Directory, Some(&tagged_wav())), None);
    assert_eq!(get_metadata("pipe.wav", EntryKind::Special, Some(&tagged_wav())), None);
}

#[test]
fn disallowed_extension_gives_nothing_whatever_the_content() {
    assert_eq!(get_metadata("song.txt", EntryKind::File, Some(&tagged_wav())), None);
    assert_eq!(get_metadata("song.exe", EntryKind::File, Some(&tagged_wav())), None);
    assert_eq!(get_metadata("song", EntryKind::File, Some(&tagged_wav())), None);
    assert_eq!(get_metadata("song.wav.txt", EntryKind::File, Some(&tagged_wav())), None);
}

#[test]
fn unreadable_file_gives_nothing() {
    assert_eq!(get_metadata("song.wav", EntryKind::File, None), None);
}

#[test]
fn corrupt_content_gives_nothing() {
    assert_eq!(get_metadata("song.mp3", EntryKind::File, Some(b"")), None);
    assert_eq!(get_metadata("song.mp3", EntryKind::File, Some(b"this is no audio at all")), None);
    assert_eq!(get_metadata("song.flac", EntryKind::File, Some(&[0u8; 4096])), None);
    assert_eq!(read_container(b"RIFF\x04\x00\x00\x00WAVE"), None);
}

#[test]
fn truncated_content_gives_nothing() {
    let bytes = tagged_wav();
    assert_eq!(get_metadata("song.wav", EntryKind::File, Some(&bytes[..10])), None);
    assert_eq!(get_metadata("song.wav", EntryKind::File, Some(&bytes[..30])), None);
}

#[test]
fn repeated_calls_give_the_same_record() {
    let bytes = tagged_wav();
    let first = get_metadata("song.wav", EntryKind::File, Some(&bytes));
    let second = get_metadata("song.wav", EntryKind::File, Some(&bytes));
    assert!(first.is_some());
    assert_eq!(first, second);
}

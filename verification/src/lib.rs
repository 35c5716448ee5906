//! Display metadata of local audio files: title, artist, album, duration and
//! embedded cover art.
//!
//! The caller asks the filesystem about a path and reads the file; this
//! library decides whether the path qualifies as an audio file (`path`),
//! probes the bytes with lofty (`probe`) into a plain `Container`
//! (`container`), and builds the record that is shown (`metadata`), with the
//! cover written as a data URI (`cover`) in standard base64 (`encoding`).
//! Every failure on the way gives the same outcome: no record.

pub mod container;
pub mod cover;
pub mod encoding;
pub mod metadata;
pub mod path;
pub mod probe;
pub mod text;

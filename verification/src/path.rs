//! The path validator: an entry qualifies when it is a regular file whose
//! extension is on the allow-list, compared without regard to ASCII case.

use vstd::prelude::*;
use vstd::string::*;
use crate::text::{borrow_text, owned_text, text_of};

verus! {

/// What the filesystem reports for a path at the time of the call.
#[derive(Clone, Copy, Debug, PartialEq, Eq, Structural)]
pub enum EntryKind {
    /// The path does not resolve to an entry.
    Missing,
    /// A regular file.
    File,
    /// A directory.
    Directory,
    /// Anything else: a device, a socket, a pipe.
    Special,
}

/// The lower-case form of an ASCII capital; every other character is itself.
pub open spec fn ascii_lower(c: char) -> char {
    if 'A' <= c && c <= 'Z' {
        ((c as u8) + 32) as char
    } else {
        c
    }
}

/// `s` with each character replaced by its `ascii_lower`.
pub open spec fn lowercase(s: Seq<char>) -> Seq<char> {
    Seq::new(s.len(), |i: int| ascii_lower(s[i]))
}

/// The extensions of the audio formats that are accepted, in lower case.
pub open spec fn allowed_extensions() -> Seq<Seq<char>> {
    seq!["mp3"@, "m4a"@, "flac"@, "wav"@, "ogg"@, "opus"@, "aac"@, "wma"@]
}

/// Whether `ext` is, up to ASCII case, one of the allowed extensions.
pub open spec fn extension_allowed(ext: Seq<char>) -> bool {
    allowed_extensions().contains(lowercase(ext))
}

/// The validator's rule: a regular file that has an extension, and the
/// extension is allowed.
pub open spec fn valid_candidate(entry: EntryKind, extension: Option<Seq<char>>) -> bool {
    &&& entry == EntryKind::File
    &&& extension matches Some(ext)
    &&& extension_allowed(ext)
}

/// Every extension on the allow-list is allowed as it stands, and so is each
/// of its spellings in other case.
pub proof fn lemma_listed_extensions_are_allowed(i: int, spelling: Seq<char>)
    requires
        0 <= i < allowed_extensions().len(),
        lowercase(spelling) == allowed_extensions()[i],
    ensures
        extension_allowed(allowed_extensions()[i]),
        extension_allowed(spelling),
{
    reveal_strlit("mp3");
    reveal_strlit("m4a");
    reveal_strlit("flac");
    reveal_strlit("wav");
    reveal_strlit("ogg");
    reveal_strlit("opus");
    reveal_strlit("aac");
    reveal_strlit("wma");
    let listed = allowed_extensions()[i];
    assert(lowercase(listed) =~= listed);
}

/// Whether an extension is allowed does not depend on the case of its
/// letters.
pub proof fn lemma_case_is_ignored(a: Seq<char>, b: Seq<char>)
    requires
        lowercase(a) == lowercase(b),
    ensures
        extension_allowed(a) == extension_allowed(b),
{
}

fn lower(c: char) -> (r: char)
    ensures
        r == ascii_lower(c),
{
    if 'A' <= c && c <= 'Z' {
        ((c as u8) + 32) as char
    } else {
        c
    }
}

/// Whether the lower-case form of `text` is exactly `word`.
fn lowers_to(text: &str, word: &str) -> (r: bool)
    ensures
        r == (lowercase(text@) == word@),
{
    let n = text.unicode_len();
    if n != word.unicode_len() {
        return false;
    }
    let mut i: usize = 0;
    while i < n
        invariant
            i <= n,
            n == text@.len(),
            n == word@.len(),
            forall|j: int| 0 <= j < i ==> ascii_lower(text@[j]) == word@[j],
        decreases n - i,
    {
        if lower(text.get_char(i)) != word.get_char(i) {
            assert(lowercase(text@)[i as int] != word@[i as int]);
            return false;
        }
        i += 1;
    }
    assert(lowercase(text@) =~= word@);
    true
}

/// The allow-list as data: one entry per accepted extension.
pub fn allowed_extension_list() -> (list: Vec<&'static str>)
    ensures
        list@.len() == allowed_extensions().len(),
        forall|i: int| 0 <= i < list@.len() ==> (#[trigger] list@[i])@ == allowed_extensions()[i],
{
    vec!["mp3", "m4a", "flac", "wav", "ogg", "opus", "aac", "wma"]
}

/// Tests an extension, given without its dot, against the allow-list.
pub fn is_allowed_extension(ext: &str) -> (r: bool)
    ensures
        r == extension_allowed(ext@),
{
    let list = allowed_extension_list();
    let mut i: usize = 0;
    while i < list.len()
        invariant
            i <= list@.len(),
            list@.len() == allowed_extensions().len(),
            forall|k: int| 0 <= k < list@.len() ==> (#[trigger] list@[k])@ == allowed_extensions()[k],
            forall|k: int| 0 <= k < i ==> allowed_extensions()[k] != lowercase(ext@),
        decreases list@.len() - i,
    {
        if lowers_to(ext, list[i]) {
            assert(allowed_extensions()[i as int] == lowercase(ext@));
            return true;
        }
        i += 1;
    }
    false
}

/// Decides whether an entry of kind `entry`, whose path has the extension
/// `extension` (without the dot; `None` where the path has none), is an audio
/// file that may be probed.
pub fn is_valid_candidate(entry: EntryKind, extension: Option<&str>) -> (r: bool)
    ensures
        r == valid_candidate(entry, text_of(extension)),
{
    match entry {
        EntryKind::File => match extension {
            Some(ext) => is_allowed_extension(ext),
            None => false,
        },
        _ => false,
    }
}

/// The extension that `std::path::Path::extension` finds in a path: the part
/// of the path's file name after its last dot, if the file name has a dot that
/// is not its first character. It looks at the characters of the path alone.
/// Which part of a path is its file name follows the separators of the
/// platform that the library is built for.
pub uninterp spec fn extension_in(path: Seq<char>) -> Option<Seq<char>>;

/// `std::path::Path::extension`, on a path given as a string, handed back as
/// an owned string: the result is `extension_in` of the path's characters.
#[verifier::external_body]
pub(crate) fn path_extension(path: &str) -> (ext: Option<String>)
    ensures
        owned_text(ext) == extension_in(path@),
{
    std::path::Path::new(path).extension().map(|e| e.to_string_lossy().into_owned())
}

/// Validates a path: `entry` is what the filesystem reports for it. The path
/// is valid where it is a regular file and the extension found in it is
/// allowed; a path that does not exist, a directory and a path without an
/// allowed extension are not.
pub fn is_valid_audio_path(path: &str, entry: EntryKind) -> (r: bool)
    ensures
        r == valid_candidate(entry, extension_in(path@)),
        entry != EntryKind::File ==> !r,
{
    let ext = path_extension(path);
    is_valid_candidate(entry, borrow_text(&ext))
}

} // verus!

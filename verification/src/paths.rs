//! What the player reads from a file's path.

use vstd::prelude::*;

verus! {

/// The file stem of a path, as `std::path::Path::file_stem` gives it on the
/// platform the player is built for: the last component of the path without
/// its extension, or nothing where the path has no file name. Where the stem
/// is no valid Unicode, the characters that are not are replaced, as
/// `OsStr::to_string_lossy` does it.
pub uninterp spec fn file_stem_of(path: Seq<char>) -> Option<Seq<char>>;

/// Calls `std::path::Path::file_stem` on the path and turns the stem into a
/// string with `to_string_lossy`.
#[verifier::external_body]
pub(crate) fn file_stem(path: &str) -> (stem: Option<String>)
    ensures
        match stem {
            Some(s) => file_stem_of(path@) == Some(s@),
            None => file_stem_of(path@) is None,
        },
{
    std::path::Path::new(path).file_stem().map(|s| s.to_string_lossy().into_owned())
}

/// The file stem of a path, as a string; nothing where the path has no file
/// name.
pub fn file_stem_of_path(path: &String) -> (stem: Option<String>)
    ensures
        match stem {
            Some(s) => file_stem_of(path@) == Some(s@),
            None => file_stem_of(path@) is None,
        },
{
    file_stem(path.as_str())
}

} // verus!

//! The track that is playing, known by its path and its length.

use crate::paths::file_stem;
use crate::paths::file_stem_of;
use vstd::prelude::*;

verus! {

pub struct CurrentTrack {
    pub path: String,
    pub total_duration_ms: u64,
}

impl CurrentTrack {
    pub fn new(path: String, total_duration_ms: u64) -> (track: Self)
        ensures
            track.path == path,
            track.total_duration_ms == total_duration_ms,
    {
        CurrentTrack { path, total_duration_ms }
    }

    /// The name under which the track is shown: the file stem of its path.
    /// The path must have a file name.
    pub fn name(&self) -> (name: String)
        requires
            file_stem_of(self.path@) is Some,
        ensures
            Some(name@) == file_stem_of(self.path@),
    {
        match file_stem(self.path.as_str()) {
            Some(stem) => stem,
            None => {
                proof {
                    assert(false);
                }
                String::new()
            },
        }
    }

    /// The name under which the track is shown, or nothing where the path
    /// has no file name.
    pub fn try_name(&self) -> (name: Option<String>)
        ensures
            match name {
                Some(n) => Some(n@) == file_stem_of(self.path@),
                None => file_stem_of(self.path@) is None,
            },
    {
        match file_stem(self.path.as_str()) {
            Some(_) => Some(self.name()),
            None => None,
        }
    }
}

} // verus!

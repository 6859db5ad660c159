//! What the player decides while it reads the disk: which entries of the
//! music directory are tracks, and what a line of the configuration file
//! means. Reading the disk itself is left to the program.

use crate::playback::Repeat;
use crate::playback::Shuffle;
use vstd::prelude::*;

verus! {

/// One entry of a directory, as the walk reads it.
#[derive(Debug)]
pub struct Entry {
    pub path: String,
    pub is_dir: bool,
    /// The extension of the file name, if it has one.
    pub extension: Option<String>,
}

/// The walk through the music directory. The program asks for the next
/// directory with `next_dir`, reads it and hands its entries to `visit`,
/// until no directory is left.
#[derive(Debug)]
pub struct FileWalk {
    /// The directories that are still to be read; the last one is read next.
    pub stack: Vec<String>,
    /// The files found so far.
    pub files: Vec<String>,
}

/// Whether the entry is a file with the extension given.
pub open spec fn is_match(entry: Entry, extension: Seq<char>) -> bool {
    &&& !entry.is_dir
    &&& entry.extension matches Some(found)
    &&& found@ == extension
}

/// The paths of the directories among `entries`, in their order.
pub open spec fn dirs_of(entries: Seq<Entry>) -> Seq<String>
    decreases entries.len(),
{
    if entries.len() == 0 {
        Seq::empty()
    } else if entries.last().is_dir {
        dirs_of(entries.drop_last()).push(entries.last().path)
    } else {
        dirs_of(entries.drop_last())
    }
}

/// The paths of the files among `entries` that have the extension given, in
/// their order.
pub open spec fn files_of(entries: Seq<Entry>, extension: Seq<char>) -> Seq<String>
    decreases entries.len(),
{
    if entries.len() == 0 {
        Seq::empty()
    } else if is_match(entries.last(), extension) {
        files_of(entries.drop_last(), extension).push(entries.last().path)
    } else {
        files_of(entries.drop_last(), extension)
    }
}

impl FileWalk {
    /// The walk that starts at `root`.
    pub fn new(root: String) -> (walk: Self)
        ensures
            walk.stack@ == seq![root],
            walk.files@ == Seq::<String>::empty(),
    {
        let mut stack = Vec::new();
        stack.push(root);
        FileWalk { stack, files: Vec::new() }
    }

    /// The directory to read next: the one that was found last. `None` when
    /// the walk is complete.
    pub fn next_dir(&mut self) -> (dir: Option<String>)
        ensures
            final(self).files == old(self).files,
            old(self).stack@.len() > 0 ==> dir == Some(old(self).stack@.last()) && final(self).stack@ == old(self).stack@.drop_last(),
            old(self).stack@.len() == 0 ==> dir is None && final(self).stack@ == old(self).stack@,
    {
        self.stack.pop()
    }

    /// Takes in the entries of a directory that was read: the directories
    /// among them are read later, the files with the extension are found.
    pub fn visit(&mut self, entries: Vec<Entry>, extension: &String)
        ensures
            final(self).stack@ == old(self).stack@ + dirs_of(entries@),
            final(self).files@ == old(self).files@ + files_of(entries@, extension@),
    {
        let mut i: usize = 0;
        while i < entries.len()
            invariant
                i <= entries.len(),
                self.stack@ == old(self).stack@ + dirs_of(entries@.subrange(0, i as int)),
                self.files@ == old(self).files@ + files_of(
                    entries@.subrange(0, i as int),
                    extension@,
                ),
            decreases entries.len() - i,
        {
            proof {
                let upto = entries@.subrange(0, i + 1);
                assert(upto.drop_last() == entries@.subrange(0, i as int));
                assert(upto.last() == entries@[i as int]);
            }
            let entry = &entries[i];
            if entry.is_dir {
                self.stack.push(entry.path.clone());
            } else {
                match &entry.extension {
                    Some(found) => {
                        if *found == *extension {
                            self.files.push(entry.path.clone());
                        }
                    },
                    None => {},
                }
            }
            i += 1;
        }
        proof {
            assert(entries@.subrange(0, entries@.len() as int) == entries@);
        }
    }

    /// The files that the walk found.
    pub fn into_files(self) -> (files: Vec<String>)
        ensures
            files == self.files,
    {
        self.files
    }
}

/// What the configuration file sets.
#[derive(Debug)]
pub struct Settings {
    pub audio_dir_path: String,
    /// The volume as the file gives it; the program reads the number.
    pub volume: Option<String>,
    pub shuffle: Shuffle,
    pub repeat: Repeat,
}

/// The settings as contracts speak of them.
#[verifier::ext_equal]
pub struct SettingsView {
    pub audio_dir_path: Seq<char>,
    pub volume: Option<Seq<char>>,
    pub shuffle: Shuffle,
    pub repeat: Repeat,
}

impl View for Settings {
    type V = SettingsView;

    open spec fn view(&self) -> SettingsView {
        SettingsView {
            audio_dir_path: self.audio_dir_path@,
            volume: match self.volume {
                Some(text) => Some(text@),
                None => None,
            },
            shuffle: self.shuffle,
            repeat: self.repeat,
        }
    }
}

impl SettingsView {
    /// The settings after the line `key = value`. The keys are
    /// `audio_path`, `volume`, `shuffle` (0 or 1) and `repeat` (0, 1 or 2); a
    /// line with another key, or with a value that the key does not know,
    /// changes nothing.
    pub open spec fn with_line(self, key: Seq<char>, value: Seq<char>) -> SettingsView {
        if key == "audio_path"@ {
            SettingsView { audio_dir_path: value, ..self }
        } else if key == "volume"@ {
            SettingsView { volume: Some(value), ..self }
        } else if key == "shuffle"@ {
            if value == "0"@ {
                SettingsView { shuffle: Shuffle::Off, ..self }
            } else if value == "1"@ {
                SettingsView { shuffle: Shuffle::Random, ..self }
            } else {
                self
            }
        } else if key == "repeat"@ {
            if value == "0"@ {
                SettingsView { repeat: Repeat::Off, ..self }
            } else if value == "1"@ {
                SettingsView { repeat: Repeat::Queue, ..self }
            } else if value == "2"@ {
                SettingsView { repeat: Repeat::One, ..self }
            } else {
                self
            }
        } else {
            self
        }
    }
}

impl Default for Settings {
    fn default() -> (settings: Self)
        ensures
            settings@ == (SettingsView {
                audio_dir_path: Seq::empty(),
                volume: None,
                shuffle: Shuffle::Off,
                repeat: Repeat::Off,
            }),
    {
        Settings {
            audio_dir_path: String::new(),
            volume: None,
            shuffle: Shuffle::Off,
            repeat: Repeat::Off,
        }
    }
}

impl Settings {
    /// Applies one line of the configuration file, given as its key and its
    /// value, both without the blanks around them.
    pub fn apply(&mut self, key: &String, value: String)
        ensures
            final(self)@ == old(self)@.with_line(key@, value@),
    {
        if *key == "audio_path".to_owned() {
            self.audio_dir_path = value;
        } else if *key == "volume".to_owned() {
            self.volume = Some(value);
        } else if *key == "shuffle".to_owned() {
            if value == "0".to_owned() {
                self.shuffle = Shuffle::Off;
            } else if value == "1".to_owned() {
                self.shuffle = Shuffle::Random;
            }
        } else if *key == "repeat".to_owned() {
            if value == "0".to_owned() {
                self.repeat = Repeat::Off;
            } else if value == "1".to_owned() {
                self.repeat = Repeat::Queue;
            } else if value == "2".to_owned() {
                self.repeat = Repeat::One;
            }
        }
    }
}

} // verus!

//! The two playback modes that shape the play order.

use vstd::prelude::*;

verus! {

/// How the working list is ordered when playback is started from a position.
#[derive(Clone, Copy, Debug, PartialEq, Eq, Structural)]
pub enum Shuffle {
    /// The working list keeps the order of its source.
    Off,
    /// The chosen track comes first, the rest follows in random order.
    Random,
}

/// What happens when the lookahead queue runs dry.
#[derive(Clone, Copy, Debug, PartialEq, Eq, Structural)]
pub enum Repeat {
    /// Playback stops at the end of the working list.
    Off,
    /// The working list starts over.
    Queue,
    /// The current track is replayed when it ends; skipping behaves like `Queue`.
    One,
}

impl Shuffle {
    /// The mode after one press of the shuffle button.
    pub open spec fn toggled(self) -> Shuffle {
        match self {
            Shuffle::Off => Shuffle::Random,
            Shuffle::Random => Shuffle::Off,
        }
    }

    /// The number under which the mode is stored in the configuration file.
    pub open spec fn code(self) -> u8 {
        match self {
            Shuffle::Off => 0u8,
            Shuffle::Random => 1u8,
        }
    }

    pub fn toggle(self) -> (next: Shuffle)
        ensures
            next == self.toggled(),
    {
        match self {
            Shuffle::Off => Shuffle::Random,
            Shuffle::Random => Shuffle::Off,
        }
    }

    pub fn as_code(self) -> (code: u8)
        ensures
            code == self.code(),
    {
        match self {
            Shuffle::Off => 0,
            Shuffle::Random => 1,
        }
    }
}

impl Repeat {
    /// The mode after one press of the repeat button: off, queue, one, off again.
    pub open spec fn toggled(self) -> Repeat {
        match self {
            Repeat::Off => Repeat::Queue,
            Repeat::Queue => Repeat::One,
            Repeat::One => Repeat::Off,
        }
    }

    /// The number under which the mode is stored in the configuration file.
    pub open spec fn code(self) -> u8 {
        match self {
            Repeat::Off => 0u8,
            Repeat::Queue => 1u8,
            Repeat::One => 2u8,
        }
    }

    pub fn toggle(self) -> (next: Repeat)
        ensures
            next == self.toggled(),
    {
        match self {
            Repeat::Off => Repeat::Queue,
            Repeat::Queue => Repeat::One,
            Repeat::One => Repeat::Off,
        }
    }

    pub fn as_code(self) -> (code: u8)
        ensures
            code == self.code(),
    {
        match self {
            Repeat::Off => 0,
            Repeat::Queue => 1,
            Repeat::One => 2,
        }
    }
}

} // verus!

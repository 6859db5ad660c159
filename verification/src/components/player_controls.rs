//! The bar that shows what is playing.

use crate::event::AudioMessage;
use vstd::prelude::*;

verus! {

pub struct PlayerControlsComponent {
    /// The name of the track that is playing.
    pub name: Option<String>,
    /// How much of the track was played, in percent.
    pub progress: u16,
}

/// How much of a source of `total_ms` milliseconds was played at `pos_ms`,
/// in percent, rounded up. Of a source without length nothing was played at
/// its start, and everything after it.
pub open spec fn percent(pos_ms: u64, total_ms: u64) -> u16 {
    if total_ms == 0 {
        if pos_ms == 0 {
            0
        } else {
            u16::MAX
        }
    } else if (100 * pos_ms + total_ms - 1) / (total_ms as int) > u16::MAX {
        u16::MAX
    } else {
        ((100 * pos_ms + total_ms - 1) / (total_ms as int)) as u16
    }
}

/// How much of a source was played, in percent.
pub fn progress_percent(pos_ms: u64, total_ms: u64) -> (progress: u16)
    ensures
        progress == percent(pos_ms, total_ms),
{
    if total_ms == 0 {
        if pos_ms == 0 {
            0
        } else {
            u16::MAX
        }
    } else {
        let scaled: u128 = 100 * (pos_ms as u128) + (total_ms as u128) - 1;
        let rounded: u128 = scaled / (total_ms as u128);
        if rounded > u16::MAX as u128 {
            u16::MAX
        } else {
            rounded as u16
        }
    }
}

impl PlayerControlsComponent {
    pub fn new() -> (controls: Self)
        ensures
            controls.name is None,
            controls.progress == 0,
    {
        PlayerControlsComponent { name: None, progress: 0 }
    }

    /// Takes in what the audio thread tells: at the end of the track the
    /// bar is cleared, a report of the sink sets the progress, which is zero
    /// while the length of the source is not known.
    pub fn audio(&mut self, message: AudioMessage)
        ensures
            match message {
                AudioMessage::EndOfTrack => final(self).name is None && final(self).progress == 0,
                AudioMessage::State(state) => final(self).name == old(self).name && final(self).progress == match state.total_duration_ms {
                    Some(total) => percent(state.pos_ms, total),
                    None => 0,
                },
                AudioMessage::Noop => *final(self) == *old(self),
            },
    {
        match message {
            AudioMessage::EndOfTrack => {
                self.clear();
            },
            AudioMessage::State(state) => {
                self.progress = match state.total_duration_ms {
                    Some(total) => progress_percent(state.pos_ms, total),
                    None => 0,
                };
            },
            AudioMessage::Noop => {},
        }
    }

    /// What the bar shows once the track has ended: no name, no progress.
    pub fn clear(&mut self)
        ensures
            final(self).name is None,
            final(self).progress == 0,
    {
        self.progress = 0;
        self.name = None;
    }
}

} // verus!

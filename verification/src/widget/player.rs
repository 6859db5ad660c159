//! The list of the library with its queues, for a library that is known by
//! paths alone: a track is its path and its place in the library.

use crate::layout::Rect;
use crate::widget::cursor::Cursor;
use std::collections::VecDeque;
use vstd::prelude::*;

verus! {

/// The track that is playing.
#[derive(Debug)]
pub struct CurrentTrack {
    pub path: String,
    pub duration_ms: u64,
    /// The place of the track in the library.
    pub index: usize,
}

/// A track that waits in a queue.
#[derive(Debug)]
pub struct Track {
    pub path: String,
    /// The place of the track in the library.
    pub index: usize,
}

pub struct Player {
    tracks: Vec<String>,
    current: Option<CurrentTrack>,
    auto_queue: VecDeque<Track>,
    manual_queue: VecDeque<Track>,
    is_paused: bool,
    cursor: Cursor,
    area: Rect,
    pub y_offset: u16,
}

/// The player as contracts speak of it.
#[verifier::ext_equal]
pub struct PlayerView {
    pub tracks: Seq<String>,
    pub current: Option<CurrentTrack>,
    pub auto_queue: Seq<Track>,
    pub manual_queue: Seq<Track>,
    pub is_paused: bool,
    pub cursor: u16,
    pub area: Rect,
    pub y_offset: u16,
}

impl View for Player {
    type V = PlayerView;

    closed spec fn view(&self) -> PlayerView {
        PlayerView {
            tracks: self.tracks@,
            current: self.current,
            auto_queue: self.auto_queue@,
            manual_queue: self.manual_queue@,
            is_paused: self.is_paused,
            cursor: self.cursor.y,
            area: self.area,
            y_offset: self.y_offset,
        }
    }
}

/// The number of rows by which a cursor moves when it is asked to move by
/// `count`: the cursor counts rows in sixteen bits.
pub open spec fn rows_of(count: usize) -> u16 {
    if count > u16::MAX {
        u16::MAX
    } else {
        count as u16
    }
}

impl PlayerView {
    /// The cursor moved up by `count` rows. A move past the top row scrolls
    /// the list by what is left over and leaves the cursor where it is.
    pub open spec fn cursor_up(self, count: usize) -> PlayerView {
        let place = crate::layout::moved_up(self.cursor, self.y_offset, rows_of(count));
        PlayerView { cursor: place.0, y_offset: place.1, ..self }
    }

    /// The cursor moved down by `count` rows. The cursor moves while it
    /// stays in the visible part and stands on a track; else the list
    /// scrolls by one row, as long as rows are left below.
    pub open spec fn cursor_down(self, count: usize) -> PlayerView {
        let total = self.tracks.len();
        if self.cursor + rows_of(count) < self.area.height && self.cursor + self.y_offset < total {
            PlayerView { cursor: (self.cursor + rows_of(count)) as u16, ..self }
        } else if self.y_offset + self.area.height < total && self.y_offset < u16::MAX {
            PlayerView { y_offset: (self.y_offset + 1) as u16, ..self }
        } else {
            self
        }
    }
}

impl Player {
    /// The player over the tracks that were found, by their paths.
    pub fn new(tracks: Vec<String>) -> (player: Self)
        ensures
            player@ == (PlayerView {
                tracks: tracks@,
                current: None,
                auto_queue: Seq::empty(),
                manual_queue: Seq::empty(),
                is_paused: false,
                cursor: 0,
                area: Rect::zero(),
                y_offset: 0,
            }),
    {
        Player {
            tracks,
            current: None,
            auto_queue: VecDeque::new(),
            manual_queue: VecDeque::new(),
            cursor: Cursor::new(),
            is_paused: false,
            area: Rect { x: 0, y: 0, width: 0, height: 0 },
            y_offset: 0,
        }
    }

    pub fn cursor_up(&mut self, count: usize)
        ensures
            final(self)@ == old(self)@.cursor_up(count),
    {
        let count: u16 = if count > u16::MAX as usize {
            u16::MAX
        } else {
            count as u16
        };
        let place = crate::layout::move_up(self.cursor.y, self.y_offset, count);
        self.cursor.y = place.0;
        self.y_offset = place.1;
    }

    pub fn cursor_down(&mut self, count: usize)
        ensures
            final(self)@ == old(self)@.cursor_down(count),
    {
        let count: u16 = if count > u16::MAX as usize {
            u16::MAX
        } else {
            count as u16
        };
        let total = self.tracks.len() as u64;
        let target = self.cursor.y as u64 + count as u64;
        if target < self.area.height as u64 && (self.cursor.y as u64 + self.y_offset as u64)
            < total {
            self.cursor.y = self.cursor.y + count;
        } else if (self.y_offset as u64 + self.area.height as u64) < total && self.y_offset
            < u16::MAX {
            self.y_offset += 1;
        }
    }

    /// The manual queue, to put tracks in and take tracks out.
    pub fn manual_queue_mut(&mut self) -> (queue: &mut VecDeque<Track>)
        ensures
            queue@ == old(self)@.manual_queue,
            final(self)@ == (PlayerView { manual_queue: final(queue)@, ..old(self)@ }),
    {
        &mut self.manual_queue
    }

    /// The lookahead queue, to put tracks in and take tracks out.
    pub fn auto_queue_mut(&mut self) -> (queue: &mut VecDeque<Track>)
        ensures
            queue@ == old(self)@.auto_queue,
            final(self)@ == (PlayerView { auto_queue: final(queue)@, ..old(self)@ }),
    {
        &mut self.auto_queue
    }

    /// Replaces the lookahead queue by the tracks given, in their order.
    pub fn set_auto_queue(&mut self, tracks: Vec<Track>)
        ensures
            final(self)@ == (PlayerView { auto_queue: tracks@, ..old(self)@ }),
    {
        let ghost all = tracks@;
        let mut tracks = tracks;
        let mut queue: VecDeque<Track> = VecDeque::new();
        while tracks.len() > 0
            invariant
                tracks@ + queue@ == all,
            decreases tracks.len(),
        {
            let track = tracks.pop().unwrap();
            queue.push_front(track);
        }
        self.auto_queue = queue;
    }

    pub fn tracks(&self) -> (tracks: &Vec<String>)
        ensures
            tracks@ == self@.tracks,
    {
        &self.tracks
    }

    pub fn tracks_len(&self) -> (len: usize)
        ensures
            len == self@.tracks.len(),
    {
        self.tracks.len()
    }

    /// The path under the cursor and its place in the library. The cursor
    /// must stand on a track.
    pub fn track_under_cursor(&self) -> (found: (String, usize))
        requires
            self@.cursor + self@.y_offset < self@.tracks.len(),
        ensures
            found.1 == self@.cursor + self@.y_offset,
            found.0 == self@.tracks[found.1 as int],
    {
        let idx = self.cursor.y as usize + self.y_offset as usize;
        (self.tracks[idx].clone(), idx)
    }

    pub fn get_current_path(&self) -> (path: Option<&str>)
        ensures
            match path {
                Some(p) => self@.current is Some && p@ == self@.current->0.path@,
                None => self@.current is None,
            },
    {
        match &self.current {
            Some(current) => Some(current.path.as_str()),
            None => None,
        }
    }

    pub fn get_current_duration(&self) -> (duration_ms: Option<u64>)
        ensures
            duration_ms == match self@.current {
                Some(current) => Some(current.duration_ms),
                None => None,
            },
    {
        match &self.current {
            Some(current) => Some(current.duration_ms),
            None => None,
        }
    }

    pub fn get_current_index(&self) -> (index: Option<usize>)
        ensures
            index == match self@.current {
                Some(current) => Some(current.index),
                None => None,
            },
    {
        match &self.current {
            Some(current) => Some(current.index),
            None => None,
        }
    }

    pub fn get_current(&self) -> (current: Option<&CurrentTrack>)
        ensures
            match current {
                Some(c) => self@.current == Some(*c),
                None => self@.current is None,
            },
    {
        self.current.as_ref()
    }

    pub fn set_current(&mut self, path: String, duration_ms: u64, index: usize)
        ensures
            final(self)@ == (PlayerView {
                current: Some(CurrentTrack { path, duration_ms, index }),
                ..old(self)@
            }),
    {
        self.current = Some(CurrentTrack { path, duration_ms, index });
    }

    pub fn unset_current(&mut self)
        ensures
            final(self)@ == (PlayerView { current: None, ..old(self)@ }),
    {
        self.current = None;
    }

    pub fn cursor(&self) -> (y: u16)
        ensures
            y == self@.cursor,
    {
        self.cursor.y
    }

    pub fn set_cursor(&mut self, y: u16)
        ensures
            final(self)@ == (PlayerView { cursor: y, ..old(self)@ }),
    {
        self.cursor.y = y;
    }

    pub fn is_paused(&self) -> (paused: bool)
        ensures
            paused == self@.is_paused,
    {
        self.is_paused
    }

    pub fn set_is_paused(&mut self, is_paused: bool)
        ensures
            final(self)@ == (PlayerView { is_paused, ..old(self)@ }),
    {
        self.is_paused = is_paused;
    }

    /// Takes note of the area in which the list was drawn.
    pub fn set_area(&mut self, area: Rect)
        ensures
            final(self)@ == (PlayerView { area, ..old(self)@ }),
    {
        self.area = area;
    }
}

} // verus!

//! The track list: the list that the user browses, and the queue engine
//! behind it.
//!
//! The engine keeps the working list (the play order in effect), the
//! lookahead queue drawn from it, the queue of tracks that the user queued by
//! hand, the history, and the current track. `set_auto_queue` seeds the
//! queues from a position, `get_next` steps forward and `get_prev` steps
//! backward; `update` ties them to the messages of the widget.

use crate::action::Action;
use crate::action::ActionView;
use crate::clock::elapsed_millis;
use crate::clock::now;
use crate::input::KeyCode;
use crate::input::KeyModifiers;
use crate::input::MOD_NONE;
use crate::layout::Rect;
use crate::model::playlist::Playlist;
use crate::model::track::Track;
use crate::playback::Repeat;
use crate::playback::Shuffle;
use crate::queue::QueueState;
use rand::seq::SliceRandom;
use std::collections::VecDeque;
use std::rc::Rc;
use std::time::Instant;
use vstd::prelude::*;
use vstd::seq_lib::to_multiset_remove;

verus! {

/// The shortest time between two starts of playback, in milliseconds. A
/// message that would start playback sooner is dropped, so that a held key
/// does not flood the audio thread.
pub const DEBOUNCE_MS: u128 = 50;

#[derive(Debug)]
pub struct Tracklist {
    /// All tracks of the music directory, in the order of the scan.
    pub library: Rc<Vec<Track>>,
    /// The tracks that the list shows when no playlist is selected, and that
    /// the working list was last built from.
    pub base: Rc<Vec<Track>>,
    /// The working list.
    pub list: Vec<Track>,
    pub auto_queue: VecDeque<Track>,
    pub manual_queue: VecDeque<Track>,
    pub history: Vec<Track>,
    pub current_track: Option<Track>,
    /// Whether the current track came from the lookahead queue or the history.
    pub from_auto: bool,
    pub selected_playlist: Option<Playlist>,
    pub shuffle: Shuffle,
    pub repeat: Repeat,
    /// When playback was last started.
    pub start_timer: Instant,
    /// The selected row, counted from the top of the visible part.
    pub cursor: u16,
    pub show_cursor: bool,
    /// The number of rows scrolled out at the top.
    pub y_offset: u16,
    pub area: Rect,
}

/// What the track list asks the session to do.
#[derive(Debug, Clone)]
pub enum Instruction {
    Play(Track),
    FocusPlaylist,
    AddToPlaylist(Track),
    RemoveFromPlaylist(Playlist, Track),
    SetHeader(String),
    Exit,
}

#[derive(Debug, Clone)]
pub enum Message {
    /// Start playback at the cursor.
    SetCurrent,
    /// Put the track under the cursor into the manual queue.
    QueueSelected,
    /// Show and play the whole library again.
    SetBaseQueue,
    /// Offer the track under the cursor to a playlist.
    SelectTrack,
    SkipToNext,
    SkipToPrev,
    CursorDown(u16),
    CursorUp(u16),
    FocusPlaylist,
    /// Remove the track under the cursor from the selected playlist.
    RemoveTrack,
    /// The current track has ended.
    GetNext,
    SetPlaylist(Playlist),
    Resize(Rect),
}

/// The track list as contracts speak of it: everything but the clock.
#[verifier::ext_equal]
pub struct TracklistView {
    pub library: Seq<Track>,
    pub base: Seq<Track>,
    pub queue: QueueState,
    pub selected_playlist: Option<Playlist>,
    pub shuffle: Shuffle,
    pub cursor: u16,
    pub show_cursor: bool,
    pub y_offset: u16,
    pub area: Rect,
}

impl View for Tracklist {
    type V = TracklistView;

    open spec fn view(&self) -> TracklistView {
        TracklistView {
            library: self.library@,
            base: self.base@,
            queue: QueueState {
                working: self.list@,
                auto_queue: self.auto_queue@,
                manual_queue: self.manual_queue@,
                history: self.history@,
                current: self.current_track,
                from_auto: self.from_auto,
                repeat: self.repeat,
            },
            selected_playlist: self.selected_playlist,
            shuffle: self.shuffle,
            cursor: self.cursor,
            show_cursor: self.show_cursor,
            y_offset: self.y_offset,
            area: self.area,
        }
    }
}

impl TracklistView {
    /// The tracks that the working list is built from: those of the selected
    /// playlist, or the library.
    pub open spec fn source(self) -> Seq<Track> {
        match self.selected_playlist {
            Some(playlist) => playlist.tracks@,
            None => self.library,
        }
    }

    /// The tracks that the list shows.
    pub open spec fn shown(self) -> Seq<Track> {
        match self.selected_playlist {
            Some(playlist) => playlist.tracks@,
            None => self.base,
        }
    }

    /// The position in the list that the cursor points at.
    pub open spec fn cursor_index(self) -> int {
        self.cursor + self.y_offset
    }

    pub open spec fn under_cursor(self) -> Option<Track> {
        if self.cursor_index() < self.shown().len() {
            Some(self.shown()[self.cursor_index()])
        } else {
            None
        }
    }

    /// The view with other queues.
    pub open spec fn with_queue(self, queue: QueueState) -> TracklistView {
        TracklistView { queue, ..self }
    }

    /// The cursor moved up by `count` rows. A move past the top row scrolls
    /// the list by what is left over and leaves the cursor where it is.
    pub open spec fn cursor_up(self, count: u16) -> TracklistView {
        if self.cursor < count {
            let rest = count - self.cursor;
            TracklistView {
                y_offset: if self.y_offset >= rest {
                    (self.y_offset - rest) as u16
                } else {
                    0
                },
                ..self
            }
        } else {
            TracklistView { cursor: (self.cursor - count) as u16, ..self }
        }
    }

    /// The cursor moved down by `count` rows. Where the move would leave
    /// the visible part or the list, the list scrolls by one row instead, as
    /// long as rows are left below.
    pub open spec fn cursor_down(self, count: u16) -> TracklistView {
        let total = self.shown().len();
        if self.cursor + count < self.area.height && self.y_offset + self.cursor + count < total {
            TracklistView { cursor: (self.cursor + count) as u16, ..self }
        } else if self.y_offset + self.area.height < total && self.y_offset < u16::MAX {
            TracklistView { y_offset: (self.y_offset + 1) as u16, ..self }
        } else {
            self
        }
    }

    /// Whether seeding may start at `anchor`: the anchor is a position of
    /// the source or its end, and under shuffle it is the position of a track.
    pub open spec fn can_seed(self, anchor: int) -> bool {
        &&& 0 <= anchor <= self.source().len()
        &&& self.shuffle == Shuffle::Random ==> anchor < self.source().len()
    }

    /// Whether `seeded` is a state that seeding at `anchor` may leave.
    ///
    /// Without shuffle the working list is the source in its order, split at
    /// the anchor. With shuffle the track at the anchor comes first, the
    /// others follow in some order, and the whole list is the lookahead
    /// queue. The manual queue, the current track and the modes stay.
    pub open spec fn seeds(self, anchor: int, seeded: TracklistView) -> bool {
        let source = self.source();
        let working = seeded.queue.working;
        &&& seeded == TracklistView { base: source, queue: seeded.queue, ..self }
        &&& match self.shuffle {
            Shuffle::Off => {
                &&& working == source
                &&& seeded.queue == self.queue.split_at(working, anchor)
            },
            Shuffle::Random => {
                &&& working.len() == source.len()
                &&& working[0] == source[anchor]
                &&& working.drop_first().to_multiset() == source.remove(anchor).to_multiset()
                &&& seeded.queue == self.queue.split_at(working, 0)
            },
        }
    }

    /// The state once the first track of the lookahead queue was made the
    /// current one, whatever was current before.
    pub open spec fn started(self) -> TracklistView {
        self.with_queue(
            QueueState {
                auto_queue: self.queue.auto_queue.drop_first(),
                current: Some(self.queue.auto_queue[0]),
                from_auto: true,
                ..self.queue
            },
        )
    }

    /// The state with the whole working list as history.
    pub open spec fn rewound(self) -> TracklistView {
        self.with_queue(QueueState { history: self.queue.working, ..self.queue })
    }

    /// The answer to a message that changes nothing and asks for nothing.
    pub open spec fn ignores(self, post: TracklistView, action: ActionView<Instruction, Message>) -> bool {
        post == self && action == ActionView::<Instruction, Message>::nothing()
    }

    /// The answer that starts playback of `track` in state `post`.
    pub open spec fn plays(
        track: Track,
        state: TracklistView,
        post: TracklistView,
        action: ActionView<Instruction, Message>,
    ) -> bool {
        post == state && action == ActionView::<Instruction, Message>::instruct(
            Instruction::Play(track),
        )
    }

    /// The answer to the end of the current track: under repeat one the
    /// track is played again and the queues stay; else the engine steps
    /// forward, and where there is no next track nothing happens.
    pub open spec fn answers_track_end(
        self,
        post: TracklistView,
        action: ActionView<Instruction, Message>,
    ) -> bool {
        if self.queue.repeat == Repeat::One && self.queue.current is Some {
            Self::plays(self.queue.current->0, self, post, action)
        } else {
            match self.queue.next_track() {
                Some(track) => Self::plays(
                    track,
                    self.with_queue(self.queue.advance()),
                    post,
                    action,
                ),
                None => self.ignores(post, action),
            }
        }
    }

    /// The answer to "play from the cursor": the queues are seeded at the
    /// cursor and the track there is started. A cursor that points at no
    /// track of the source changes nothing.
    pub open spec fn answers_set_current(
        self,
        post: TracklistView,
        action: ActionView<Instruction, Message>,
    ) -> bool {
        if self.cursor_index() < self.source().len() {
            exists|seeded: TracklistView| #[trigger]
                self.seeds(self.cursor_index(), seeded) && Self::plays(
                    seeded.queue.auto_queue[0],
                    seeded.started(),
                    post,
                    action,
                )
        } else {
            self.ignores(post, action)
        }
    }

    /// The answer to a skip forward: a step forward; where that yields no
    /// track, the queues are seeded from the start of the source and the
    /// step is tried once more.
    pub open spec fn answers_skip_next(
        self,
        post: TracklistView,
        action: ActionView<Instruction, Message>,
    ) -> bool {
        match self.queue.next_track() {
            Some(track) => Self::plays(track, self.with_queue(self.queue.advance()), post, action),
            None => if self.can_seed(0) {
                exists|seeded: TracklistView| #[trigger]
                    self.seeds(0, seeded) && match seeded.queue.next_track() {
                        Some(track) => Self::plays(
                            track,
                            seeded.with_queue(seeded.queue.advance()),
                            post,
                            action,
                        ),
                        None => seeded.ignores(post, action),
                    }
            } else {
                self.ignores(post, action)
            },
        }
    }

    /// The answer to a skip backward: a step backward; with an empty history
    /// the whole working list becomes the history first.
    pub open spec fn answers_skip_prev(
        self,
        post: TracklistView,
        action: ActionView<Instruction, Message>,
    ) -> bool {
        match self.queue.prev_track() {
            Some(track) => Self::plays(track, self.with_queue(self.queue.retreat()), post, action),
            None => match self.rewound().queue.prev_track() {
                Some(track) => Self::plays(
                    track,
                    self.with_queue(self.rewound().queue.retreat()),
                    post,
                    action,
                ),
                None => self.rewound().ignores(post, action),
            },
        }
    }

    /// The answer to "remove the track under the cursor from the playlist":
    /// the session is asked to remove it; the list itself stays as it is
    /// until the session hands in the playlist anew.
    pub open spec fn answers_remove(
        self,
        post: TracklistView,
        action: ActionView<Instruction, Message>,
    ) -> bool {
        match self.selected_playlist {
            Some(playlist) => if self.cursor_index() < playlist.tracks@.len() {
                &&& post == self
                &&& action.messages is None
                &&& action.instruction matches Some(Instruction::RemoveFromPlaylist(from, track))
                &&& from@ == playlist@
                &&& track == playlist.tracks@[self.cursor_index()]
            } else {
                self.ignores(post, action)
            },
            None => self.ignores(post, action),
        }
    }

    /// Whether `post` and `action` are an answer of the list in state `self`
    /// to `message`. `throttled` says that playback was started less than
    /// `DEBOUNCE_MS` ago: the messages that start playback are then dropped.
    pub open spec fn answers(
        self,
        message: Message,
        throttled: bool,
        post: TracklistView,
        action: ActionView<Instruction, Message>,
    ) -> bool {
        match message {
            Message::GetNext => if throttled {
                self.ignores(post, action)
            } else {
                self.answers_track_end(post, action)
            },
            Message::SetCurrent => if throttled {
                self.ignores(post, action)
            } else {
                self.answers_set_current(post, action)
            },
            Message::SkipToNext => if throttled {
                self.ignores(post, action)
            } else {
                self.answers_skip_next(post, action)
            },
            Message::SkipToPrev => if throttled {
                self.ignores(post, action)
            } else {
                self.answers_skip_prev(post, action)
            },
            Message::SetBaseQueue => {
                &&& post == TracklistView {
                    base: self.library,
                    selected_playlist: None,
                    cursor: 0,
                    y_offset: 0,
                    ..self
                }
                &&& action.messages is None
                &&& action.instruction matches Some(Instruction::SetHeader(header))
                &&& header@.len() == 0
            },
            Message::SelectTrack => {
                &&& post == self
                &&& action == match self.under_cursor() {
                    Some(track) => ActionView::instruct(Instruction::AddToPlaylist(track)),
                    None => ActionView::<Instruction, Message>::nothing(),
                }
            },
            Message::QueueSelected => {
                &&& post == match self.under_cursor() {
                    Some(track) => self.with_queue(
                        QueueState {
                            manual_queue: self.queue.manual_queue.push(track),
                            ..self.queue
                        },
                    ),
                    None => self,
                }
                &&& action == ActionView::<Instruction, Message>::nothing()
            },
            Message::CursorUp(count) => {
                &&& post == self.cursor_up(count)
                &&& action == ActionView::<Instruction, Message>::nothing()
            },
            Message::CursorDown(count) => {
                &&& post == self.cursor_down(count)
                &&& action == ActionView::<Instruction, Message>::nothing()
            },
            Message::FocusPlaylist => {
                &&& post == self
                &&& action == ActionView::<Instruction, Message>::instruct(
                    Instruction::FocusPlaylist,
                )
            },
            Message::RemoveTrack => self.answers_remove(post, action),
            Message::SetPlaylist(playlist) => {
                &&& post == TracklistView {
                    selected_playlist: Some(playlist),
                    cursor: 0,
                    y_offset: 0,
                    ..self
                }
                &&& action == ActionView::<Instruction, Message>::nothing()
            },
            Message::Resize(area) => {
                &&& post == TracklistView { area, ..self }
                &&& action == ActionView::<Instruction, Message>::nothing()
            },
        }
    }
}

/// Calls `rand::seq::SliceRandom::shuffle` on the tracks, with the generator
/// that `rand::rng` hands out for the thread. The shuffle only swaps items of
/// the slice: afterwards the list holds the tracks it held before, each as
/// often as before. Their order is left to chance and nothing is claimed of it.
#[verifier::external_body]
fn shuffle_tracks(tracks: &mut Vec<Track>)
    ensures
        final(tracks)@.to_multiset() == old(tracks)@.to_multiset(),
{
    tracks.shuffle(&mut rand::rng());
}

/// The tracks of `tracks` as a queue, in the same order.
pub fn into_queue(tracks: Vec<Track>) -> (queue: VecDeque<Track>)
    ensures
        queue@ == tracks@,
{
    let ghost all = tracks@;
    let mut tracks = tracks;
    let mut queue: VecDeque<Track> = VecDeque::new();
    while tracks.len() > 0
        invariant
            tracks@ + queue@ == all,
        decreases tracks.len(),
    {
        let track = tracks.pop().unwrap();
        queue.push_front(track);
    }
    queue
}

/// The list without the track at `anchor` holds the same tracks as the list
/// in which that track was swapped to the front and then cut off.
proof fn lemma_swap_to_front(source: Seq<Track>, swapped: Seq<Track>, anchor: int)
    requires
        0 <= anchor < source.len(),
        swapped == source.update(0, source[anchor]).update(anchor, source[0]),
    ensures
        swapped.len() == source.len(),
        swapped[0] == source[anchor],
        swapped.drop_first().to_multiset() == source.remove(anchor).to_multiset(),
{
    if anchor == 0 {
        assert(swapped == source);
        assert(source.remove(0) == source.drop_first());
    } else {
        // Removing the front of the swapped list and removing the anchor of
        // the source leave the same tracks, with the old front in another
        // place.
        let tail = swapped.drop_first();
        let rest = source.remove(anchor);
        assert(tail[anchor - 1] == source[0]);
        assert(rest[0] == source[0]);
        assert(tail.remove(anchor - 1) == rest.remove(0));
        to_multiset_remove(tail, anchor - 1);
        to_multiset_remove(rest, 0);
        broadcast use vstd::seq_lib::to_multiset_contains;
        assert(tail.to_multiset().count(source[0]) > 0);
        assert(rest.to_multiset().count(source[0]) > 0);
        assert(tail.to_multiset() =~= tail.to_multiset().remove(source[0]).insert(source[0]));
        assert(rest.to_multiset() =~= rest.to_multiset().remove(source[0]).insert(source[0]));
    }
}

impl Tracklist {
    /// A list over `tracks` with empty queues.
    pub fn new(tracks: Rc<Vec<Track>>, area: Rect, shuffle: Shuffle, repeat: Repeat) -> (list: Self)
        ensures
            list@ == (TracklistView {
                library: tracks@,
                base: tracks@,
                queue: QueueState {
                    working: tracks@,
                    auto_queue: Seq::empty(),
                    manual_queue: Seq::empty(),
                    history: Seq::empty(),
                    current: None,
                    from_auto: false,
                    repeat,
                },
                selected_playlist: None,
                shuffle,
                cursor: 0,
                show_cursor: true,
                y_offset: 0,
                area,
            }),
    {
        let list = (*tracks).clone();
        Tracklist {
            library: tracks.clone(),
            base: tracks,
            list,
            auto_queue: VecDeque::new(),
            manual_queue: VecDeque::new(),
            history: Vec::new(),
            current_track: None,
            from_auto: false,
            selected_playlist: None,
            start_timer: now(),
            shuffle,
            repeat,
            cursor: 0,
            show_cursor: true,
            y_offset: 0,
            area,
        }
    }

    /// The message that a key stands for, if any.
    pub fn handle_input(&self, code: KeyCode, mods: KeyModifiers) -> (message: Option<Message>)
        ensures
            message == match code {
                KeyCode::Enter => Some(Message::SetCurrent),
                KeyCode::Up => Some(Message::CursorUp(1)),
                KeyCode::Down => if mods.bits == MOD_NONE {
                    Some(Message::CursorDown(1))
                } else {
                    None
                },
                KeyCode::Char(c) => if c == 'a' {
                    Some(Message::SelectTrack)
                } else if c == 'q' {
                    Some(Message::QueueSelected)
                } else if c == 'k' {
                    Some(Message::CursorUp(1))
                } else if c == 'j' {
                    if mods.bits == MOD_NONE {
                        Some(Message::CursorDown(1))
                    } else {
                        None
                    }
                } else if c == 'p' {
                    Some(Message::FocusPlaylist)
                } else if c == 'd' {
                    Some(Message::RemoveTrack)
                } else {
                    None
                },
                _ => None,
            },
    {
        match code {
            KeyCode::Enter => Some(Message::SetCurrent),
            KeyCode::Up => Some(Message::CursorUp(1)),
            KeyCode::Down => if mods.bits == MOD_NONE {
                Some(Message::CursorDown(1))
            } else {
                None
            },
            KeyCode::Char(c) => if c == 'a' {
                Some(Message::SelectTrack)
            } else if c == 'q' {
                Some(Message::QueueSelected)
            } else if c == 'k' {
                Some(Message::CursorUp(1))
            } else if c == 'j' {
                if mods.bits == MOD_NONE {
                    Some(Message::CursorDown(1))
                } else {
                    None
                }
            } else if c == 'p' {
                Some(Message::FocusPlaylist)
            } else if c == 'd' {
                Some(Message::RemoveTrack)
            } else {
                None
            },
            _ => None,
        }
    }

    /// Answers `message`. The messages that start playback are dropped when
    /// playback was started less than `DEBOUNCE_MS` ago; whether that is so
    /// is read from the clock, so the answer is the one of `update_at` for
    /// one of the two cases. An answer that starts playback restarts the
    /// timer.
    pub fn update(&mut self, message: Message) -> (action: Action<Instruction, Message>)
        ensures
            old(self)@.answers(message, true, final(self)@, action@) || old(self)@.answers(
                message,
                false,
                final(self)@,
                action@,
            ),
    {
        let elapsed = elapsed_millis(&self.start_timer);
        let action = self.update_at(message, elapsed);
        let started = match &action.instruction {
            Some(Instruction::Play(_)) => true,
            _ => false,
        };
        if started {
            self.start_timer = now();
        }
        action
    }

    /// Answers `message`, given that playback was last started `elapsed_ms`
    /// milliseconds ago. The timer is not touched.
    pub fn update_at(&mut self, message: Message, elapsed_ms: u128) -> (action: Action<
        Instruction,
        Message,
    >)
        ensures
            old(self)@.answers(message, elapsed_ms < DEBOUNCE_MS, final(self)@, action@),
            final(self).start_timer == old(self).start_timer,
    {
        let throttled = elapsed_ms < DEBOUNCE_MS;
        match message {
            Message::GetNext => {
                if throttled {
                    return Action::none();
                }
                if self.repeat == Repeat::One {
                    if let Some(current) = &self.current_track {
                        return Action::instruction(Instruction::Play(current.clone()));
                    }
                }
                match self.get_next() {
                    Some(track) => Action::instruction(Instruction::Play(track)),
                    None => Action::none(),
                }
            },
            Message::SetBaseQueue => {
                self.select_playlist(None);
                Action::instruction(Instruction::SetHeader(String::new()))
            },
            Message::SelectTrack => {
                match self.get_under_cursor() {
                    Some(track) => Action::instruction(Instruction::AddToPlaylist(track)),
                    None => Action::none(),
                }
            },
            Message::SetCurrent => {
                if throttled {
                    return Action::none();
                }
                let index = self.cursor as usize + self.y_offset as usize;
                if index >= self.source_len() {
                    return Action::none();
                }
                self.set_auto_queue(index);
                let ghost seeded = self@;
                match self.auto_queue.pop_front() {
                    Some(track) => {
                        self.from_auto = true;
                        self.current_track = Some(track.clone());
                        proof {
                            assert(self.auto_queue@ == seeded.queue.auto_queue.drop_first());
                            assert(self@ == seeded.started());
                        }
                        Action::instruction(Instruction::Play(track))
                    },
                    None => {
                        proof {
                            assert(false);
                        }
                        Action::none()
                    },
                }
            },
            Message::QueueSelected => {
                match self.get_under_cursor() {
                    Some(track) => {
                        self.manual_queue.push_back(track);
                    },
                    None => {},
                }
                Action::none()
            },
            Message::CursorUp(amount) => {
                self.cursor_up(amount);
                Action::none()
            },
            Message::CursorDown(amount) => {
                self.cursor_down(amount);
                Action::none()
            },
            Message::SkipToNext => {
                if throttled {
                    return Action::none();
                }
                match self.get_next() {
                    Some(track) => Action::instruction(Instruction::Play(track)),
                    None => {
                        if self.shuffle == Shuffle::Random && self.source_len() == 0 {
                            return Action::none();
                        }
                        self.set_auto_queue(0);
                        let ghost seeded = self@;
                        assert(old(self)@.seeds(0, seeded));
                        match self.get_next() {
                            Some(track) => Action::instruction(Instruction::Play(track)),
                            None => Action::none(),
                        }
                    },
                }
            },
            Message::SkipToPrev => {
                if throttled {
                    return Action::none();
                }
                match self.get_prev() {
                    Some(track) => Action::instruction(Instruction::Play(track)),
                    None => {
                        self.history = self.list.clone();
                        assert(self@ == old(self)@.rewound());
                        match self.get_prev() {
                            Some(track) => Action::instruction(Instruction::Play(track)),
                            None => Action::none(),
                        }
                    },
                }
            },
            Message::FocusPlaylist => Action::instruction(Instruction::FocusPlaylist),
            Message::RemoveTrack => {
                let index = self.cursor as usize + self.y_offset as usize;
                match &self.selected_playlist {
                    Some(playlist) => {
                        if index < playlist.tracks.len() {
                            let track = playlist.tracks[index].clone();
                            Action::instruction(
                                Instruction::RemoveFromPlaylist(playlist.clone(), track),
                            )
                        } else {
                            Action::none()
                        }
                    },
                    None => Action::none(),
                }
            },
            Message::SetPlaylist(playlist) => {
                self.select_playlist(Some(playlist));
                Action::none()
            },
            Message::Resize(area) => {
                self.area = area;
                Action::none()
            },
        }
    }

    /// The current track.
    pub fn get_current(&self) -> (current: Option<Track>)
        ensures
            current == self@.queue.current,
    {
        self.current_track.clone()
    }

    /// The track that the cursor points at.
    pub fn get_under_cursor(&self) -> (track: Option<Track>)
        ensures
            track == self@.under_cursor(),
    {
        let index = self.cursor as usize + self.y_offset as usize;
        match &self.selected_playlist {
            Some(playlist) => {
                if index < playlist.tracks.len() {
                    Some(playlist.tracks[index].clone())
                } else {
                    None
                }
            },
            None => {
                if index < self.base.len() {
                    Some(self.base[index].clone())
                } else {
                    None
                }
            },
        }
    }

    /// The number of tracks that the working list is built from.
    pub fn source_len(&self) -> (len: usize)
        ensures
            len == self@.source().len(),
    {
        match &self.selected_playlist {
            Some(playlist) => playlist.tracks.len(),
            None => self.library.len(),
        }
    }

    pub fn cursor_up(&mut self, count: u16)
        ensures
            final(self)@ == old(self)@.cursor_up(count),
            final(self).start_timer == old(self).start_timer,
    {
        if self.cursor < count {
            let rest = count - self.cursor;
            self.y_offset = self.y_offset.saturating_sub(rest);
        } else {
            self.cursor -= count;
        }
    }

    pub fn cursor_down(&mut self, count: u16)
        ensures
            final(self)@ == old(self)@.cursor_down(count),
            final(self).start_timer == old(self).start_timer,
    {
        let total: u64 = match &self.selected_playlist {
            Some(playlist) => playlist.tracks.len() as u64,
            None => self.base.len() as u64,
        };
        let target: u64 = self.cursor as u64 + count as u64;
        if target < self.area.height as u64 && self.y_offset as u64 + target < total {
            self.cursor += count;
        } else if (self.y_offset as u64 + self.area.height as u64) < total && self.y_offset
            < u16::MAX {
            self.y_offset += 1;
        }
    }

    /// Appends `track` to the manual queue.
    pub fn enqueue_manual(&mut self, track: Track)
        ensures
            final(self)@ == old(self)@.with_queue(
                QueueState {
                    manual_queue: old(self)@.queue.manual_queue.push(track),
                    ..old(self)@.queue
                },
            ),
            final(self).start_timer == old(self).start_timer,
    {
        self.manual_queue.push_back(track);
    }

    /// Sets the shuffle mode. The queues stay as they are: the mode takes
    /// effect when the queues are next seeded.
    pub fn set_shuffle(&mut self, shuffle: Shuffle)
        ensures
            final(self)@ == (TracklistView { shuffle, ..old(self)@ }),
            final(self).start_timer == old(self).start_timer,
    {
        self.shuffle = shuffle;
    }

    /// Sets the repeat mode. The queues stay as they are: the mode takes
    /// effect when the lookahead queue is next exhausted.
    pub fn set_repeat(&mut self, repeat: Repeat)
        ensures
            final(self)@ == old(self)@.with_queue(QueueState { repeat, ..old(self)@.queue }),
            final(self).start_timer == old(self).start_timer,
    {
        self.repeat = repeat;
    }

    /// Selects the playlist that the queues are seeded from next, or the
    /// library with `None`, and moves the cursor to the top. The queues stay
    /// as they are until they are seeded again.
    pub fn select_playlist(&mut self, playlist: Option<Playlist>)
        ensures
            final(self)@ == match playlist {
                Some(p) => TracklistView {
                    selected_playlist: Some(p),
                    cursor: 0,
                    y_offset: 0,
                    ..old(self)@
                },
                None => TracklistView {
                    base: old(self)@.library,
                    selected_playlist: None,
                    cursor: 0,
                    y_offset: 0,
                    ..old(self)@
                },
            },
            final(self).start_timer == old(self).start_timer,
    {
        match playlist {
            Some(p) => {
                self.selected_playlist = Some(p);
            },
            None => {
                self.base = self.library.clone();
                self.selected_playlist = None;
            },
        }
        self.cursor = 0;
        self.y_offset = 0;
    }

    /// Seeds the queues: builds the working list from the selected playlist
    /// or the library and splits it at `index`. Under shuffle the track at
    /// `index` is put first and the others are shuffled behind it, so that
    /// playback starts with the chosen track and only what follows is random.
    pub fn set_auto_queue(&mut self, index: usize)
        requires
            old(self)@.can_seed(index as int),
        ensures
            old(self)@.seeds(index as int, final(self)@),
            final(self).start_timer == old(self).start_timer,
    {
        let base = match &self.selected_playlist {
            Some(playlist) => Rc::new(playlist.tracks.clone()),
            None => self.library.clone(),
        };
        let mut list = (*base).clone();
        self.base = base;
        let ghost source = list@;
        let anchor = match self.shuffle {
            Shuffle::Random => {
                let chosen = list[index].clone();
                let first = list[0].clone();
                list.set(0, chosen);
                list.set(index, first);
                proof {
                    lemma_swap_to_front(source, list@, index as int);
                }
                let ghost swapped = list@;
                let mut rest = list.split_off(1);
                shuffle_tracks(&mut rest);
                let ghost shuffled = rest@;
                list.append(&mut rest);
                proof {
                    assert(swapped.drop_first() =~= swapped.subrange(1, swapped.len() as int));
                    assert(list@.drop_first() =~= shuffled);
                    broadcast use vstd::seq_lib::to_multiset_len;
                    assert(shuffled.len() == shuffled.to_multiset().len());
                    assert(swapped.drop_first().len() == swapped.drop_first().to_multiset().len());
                    assert(list@.len() == source.len());
                }
                0
            },
            Shuffle::Off => index,
        };
        self.split_queues(list, anchor);
    }

    /// Makes `list` the working list and splits it at `anchor`: the tracks
    /// before the anchor become the history, the others the lookahead queue.
    pub fn split_queues(&mut self, list: Vec<Track>, anchor: usize)
        requires
            anchor <= list@.len(),
        ensures
            final(self)@ == old(self)@.with_queue(old(self)@.queue.split_at(list@, anchor as int)),
            final(self).start_timer == old(self).start_timer,
    {
        let mut before = list.clone();
        let after = before.split_off(anchor);
        self.list = list;
        self.history = before;
        self.auto_queue = into_queue(after);
    }

    /// Steps forward and gives the track to play next, which becomes the
    /// current one.
    ///
    /// A track of the manual queue comes first and leaves the history alone.
    /// Else the front of the lookahead queue is taken; under a repeat mode
    /// an exhausted queue is filled from the working list first. The track
    /// that was current is archived in the history if it came from the
    /// lookahead queue. Where there is no track to take, the result is
    /// `None` and nothing changes.
    pub fn get_next(&mut self) -> (next: Option<Track>)
        ensures
            next == old(self)@.queue.next_track(),
            final(self)@ == old(self)@.with_queue(old(self)@.queue.advance()),
            final(self).start_timer == old(self).start_timer,
    {
        if self.manual_queue.len() > 0 {
            match self.manual_queue.pop_front() {
                Some(track) => {
                    self.from_auto = false;
                    self.current_track = Some(track.clone());
                    proof {
                        assert(self.manual_queue@ == old(self).manual_queue@.drop_first());
                    }
                    return Some(track);
                },
                None => {
                    return None;
                },
            }
        }
        if self.auto_queue.len() == 0 && self.repeat != Repeat::Off {
            self.auto_queue = into_queue(self.list.clone());
        }
        let ghost upcoming = self.auto_queue@;
        assert(upcoming == old(self)@.queue.upcoming());
        match self.auto_queue.pop_front() {
            Some(track) => {
                if self.from_auto {
                    match self.current_track.take() {
                        Some(current) => {
                            self.history.push(current);
                        },
                        None => {},
                    }
                }
                self.from_auto = true;
                self.current_track = Some(track.clone());
                proof {
                    assert(self.auto_queue@ == upcoming.drop_first());
                }
                Some(track)
            },
            None => {
                proof {
                    assert(self.auto_queue@ == old(self).auto_queue@);
                }
                None
            },
        }
    }

    /// Steps backward and gives the track to play, which becomes the
    /// current one: the last track of the history. The track that was
    /// current goes back to the front of the lookahead queue if it came
    /// from there. With an empty history the result is `None` and nothing
    /// changes.
    pub fn get_prev(&mut self) -> (prev: Option<Track>)
        ensures
            prev == old(self)@.queue.prev_track(),
            final(self)@ == old(self)@.with_queue(old(self)@.queue.retreat()),
            final(self).start_timer == old(self).start_timer,
    {
        match self.history.pop() {
            Some(track) => {
                if self.from_auto {
                    match self.current_track.take() {
                        Some(current) => {
                            self.auto_queue.push_front(current);
                        },
                        None => {},
                    }
                }
                self.from_auto = true;
                self.current_track = Some(track.clone());
                proof {
                    assert(self.history@ == old(self).history@.drop_last());
                }
                Some(track)
            },
            None => None,
        }
    }
}

/// Seeding under shuffle puts the chosen track first: the first step
/// forward after it yields the track at the anchor, as long as the manual
/// queue is empty. The tracks behind it are those of the source without the
/// anchor, in some order.
pub proof fn law_shuffle_starts_at_anchor(pre: TracklistView, anchor: int, seeded: TracklistView)
    requires
        pre.shuffle == Shuffle::Random,
        pre.can_seed(anchor),
        pre.seeds(anchor, seeded),
        pre.queue.manual_queue.len() == 0,
    ensures
        seeded.queue.next_track() == Some(pre.source()[anchor]),
        seeded.queue.advance().auto_queue.to_multiset() == pre.source().remove(
            anchor,
        ).to_multiset(),
{
    let working = seeded.queue.working;
    assert(seeded.queue.auto_queue =~= working);
}

/// Seeding draws the queues from the working list: afterwards every track
/// of the history and of the lookahead queue is a track of the working list.
/// So is the current track, if it came from the lookahead queue, as long as
/// it is a track of the source that was seeded from.
pub proof fn law_seed_draws_from_working(pre: TracklistView, anchor: int, seeded: TracklistView)
    requires
        pre.can_seed(anchor),
        pre.seeds(anchor, seeded),
        pre.queue.current_is_auto() ==> pre.source().contains(pre.queue.current->0),
    ensures
        seeded.queue.drawn_from_working(),
{
    let source = pre.source();
    let working = seeded.queue.working;
    assert forall|i: int| 0 <= i < seeded.queue.auto_queue.len() implies working.contains(
        #[trigger] seeded.queue.auto_queue[i],
    ) by {
        if pre.shuffle == Shuffle::Off {
            assert(seeded.queue.auto_queue[i] == working[anchor + i]);
        } else {
            assert(seeded.queue.auto_queue[i] == working[i]);
        }
    }
    assert forall|i: int| 0 <= i < seeded.queue.history.len() implies working.contains(
        #[trigger] seeded.queue.history[i],
    ) by {
        assert(seeded.queue.history[i] == working[i]);
    }
    if pre.queue.current_is_auto() && pre.shuffle == Shuffle::Random {
        let current = pre.queue.current->0;
        let j = choose|j: int| 0 <= j < source.len() && source[j] == current;
        if j == anchor {
            assert(working[0] == current);
        } else {
            let rest = source.remove(anchor);
            let k = if j < anchor {
                j
            } else {
                j - 1
            };
            assert(rest[k] == current);
            broadcast use vstd::seq_lib::to_multiset_contains;
            assert(rest.contains(current));
            assert(rest.to_multiset().count(current) > 0);
            let tail = working.drop_first();
            assert(tail.to_multiset().count(current) > 0);
            assert(tail.contains(current));
            let m = choose|m: int| 0 <= m < tail.len() && tail[m] == current;
            assert(working[m + 1] == current);
        }
    }
}

/// Seeding without shuffle keeps the order of the source: step number `i`
/// forward after it, counted from zero, yields the track at `anchor + i`, as
/// long as the manual queue is empty. Under a repeat mode the order wraps
/// round at the end of the source; with repeat off the steps past the end
/// yield nothing.
pub proof fn law_seed_keeps_order(pre: TracklistView, anchor: int, seeded: TracklistView, i: nat)
    requires
        pre.shuffle == Shuffle::Off,
        pre.can_seed(anchor),
        pre.seeds(anchor, seeded),
        pre.queue.manual_queue.len() == 0,
    ensures
        anchor + i < pre.source().len() ==> seeded.queue.advance_by(i).next_track() == Some(
            pre.source()[anchor + i],
        ),
        anchor + i >= pre.source().len() && pre.queue.repeat == Repeat::Off
            ==> seeded.queue.advance_by(i).next_track() is None,
        pre.source().len() > 0 && pre.queue.repeat != Repeat::Off ==> seeded.queue.advance_by(
            i,
        ).next_track() == Some(pre.source()[(anchor + i) % (pre.source().len() as int)]),
{
    crate::queue::law_seeded_order(pre.queue, pre.source(), anchor, i);
}

} // verus!

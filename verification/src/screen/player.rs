//! The player screen: the header, the track list or the list of playlists,
//! and the control bar. The screen routes each message to the widget that
//! owns it.

use crate::action::Action;
use crate::action::ActionView;
use crate::layout::rows;
use crate::layout::Constraint;
use crate::layout::Rect;
use crate::model::playlist::PlaylistMd;
use crate::model::track::Track;
use crate::paths::file_stem;
use crate::paths::file_stem_of;
use crate::playback::Repeat;
use crate::playback::Shuffle;
use crate::queue::QueueState;
use crate::widget::control_bar;
use crate::widget::control_bar::ControlBar;
use crate::widget::control_bar::ControlBarView;
use crate::widget::control_bar::CONTROL_BAR_HEIGHT;
use crate::widget::header::Header;
use crate::widget::header::HEADER_HEIGHT;
use crate::widget::playlist;
use crate::widget::playlist::Playlist;
use crate::widget::playlist::PlaylistsView;
use crate::widget::tracklist;
use crate::widget::tracklist::Tracklist;
use crate::widget::tracklist::TracklistView;
use std::collections::VecDeque;
use std::rc::Rc;
use vstd::prelude::*;

verus! {

pub struct Player {
    pub header: Header,
    pub tracklist: Tracklist,
    pub playlist: Playlist,
    pub mode: Mode,
    pub control_bar: ControlBar,
    pub focused_widget: Focus,
    pub area: Rect,
}

/// The widget that shows in the middle of the screen and receives the keys.
#[derive(Debug, Clone, Copy, PartialEq, Eq, Structural)]
pub enum Focus {
    Tracklist,
    Playlist,
}

#[derive(Debug, Clone, Copy, PartialEq, Eq, Structural)]
pub enum Mode {
    Default,
    /// A track was picked and waits for its playlist.
    Select,
}

/// A message for one of the widgets.
#[derive(Debug)]
pub enum Message {
    Tracklist(tracklist::Message),
    Playlist(playlist::Message),
    ControlBar(control_bar::Message),
}

/// An instruction of one of the widgets.
#[derive(Debug)]
pub enum Instruction {
    Tracklist(tracklist::Instruction),
    Playlist(playlist::Instruction),
    ControlBar(control_bar::Instruction),
}

/// The screen as contracts speak of it.
#[verifier::ext_equal]
pub struct PlayerView {
    pub header_name: Seq<char>,
    pub header_area: Rect,
    pub tracklist: TracklistView,
    pub playlist: PlaylistsView,
    pub mode: Mode,
    pub control_bar: ControlBarView,
    pub focused_widget: Focus,
    pub area: Rect,
}

impl View for Player {
    type V = PlayerView;

    open spec fn view(&self) -> PlayerView {
        PlayerView {
            header_name: self.header.playlist_name@,
            header_area: self.header.area,
            tracklist: self.tracklist@,
            playlist: self.playlist@,
            mode: self.mode,
            control_bar: self.control_bar@,
            focused_widget: self.focused_widget,
            area: self.area,
        }
    }
}

/// Whether `outer` is the action `inner` of the track list, each part
/// marked as the track list's.
pub open spec fn wraps_tracklist(
    outer: ActionView<Instruction, Message>,
    inner: ActionView<tracklist::Instruction, tracklist::Message>,
) -> bool {
    &&& outer.instruction == match inner.instruction {
        Some(i) => Some(Instruction::Tracklist(i)),
        None => None,
    }
    &&& match inner.messages {
        Some(messages) => {
            &&& outer.messages matches Some(marked)
            &&& marked.len() == messages.len()
            &&& forall|i: int|
                0 <= i < messages.len() ==> #[trigger] marked[i] == Message::Tracklist(messages[i])
        },
        None => outer.messages is None,
    }
}

/// Whether `outer` is the action `inner` of the list of playlists, each
/// part marked as that list's.
pub open spec fn wraps_playlist(
    outer: ActionView<Instruction, Message>,
    inner: ActionView<playlist::Instruction, playlist::Message>,
) -> bool {
    &&& outer.instruction == match inner.instruction {
        Some(i) => Some(Instruction::Playlist(i)),
        None => None,
    }
    &&& match inner.messages {
        Some(messages) => {
            &&& outer.messages matches Some(marked)
            &&& marked.len() == messages.len()
            &&& forall|i: int|
                0 <= i < messages.len() ==> #[trigger] marked[i] == Message::Playlist(messages[i])
        },
        None => outer.messages is None,
    }
}

/// Whether `outer` is the action `inner` of the control bar, each part
/// marked as the bar's.
pub open spec fn wraps_control_bar(
    outer: ActionView<Instruction, Message>,
    inner: ActionView<control_bar::Instruction, control_bar::Message>,
) -> bool {
    &&& outer.instruction == match inner.instruction {
        Some(i) => Some(Instruction::ControlBar(i)),
        None => None,
    }
    &&& match inner.messages {
        Some(messages) => {
            &&& outer.messages matches Some(marked)
            &&& marked.len() == messages.len()
            &&& forall|i: int|
                0 <= i < messages.len() ==> #[trigger] marked[i] == Message::ControlBar(
                    messages[i],
                )
        },
        None => outer.messages is None,
    }
}

impl PlayerView {
    /// Whether the screen in state `self` can answer `message`: the
    /// message must be one that its widget accepts.
    pub open spec fn accepts(self, message: Message) -> bool {
        message matches Message::Playlist(m) ==> self.playlist.accepts(m)
    }

    /// Whether `post` and `action` are an answer of the screen in state
    /// `self` to `message`: the widget that owns the message answers it, the
    /// rest of the screen stays as it is, and the action of the widget comes
    /// back marked as that widget's.
    pub open spec fn answers(
        self,
        message: Message,
        post: PlayerView,
        action: ActionView<Instruction, Message>,
    ) -> bool {
        match message {
            Message::Tracklist(m) => {
                &&& post == PlayerView { tracklist: post.tracklist, ..self }
                &&& exists|inner: ActionView<tracklist::Instruction, tracklist::Message>|
                    #![trigger wraps_tracklist(action, inner)]
                    wraps_tracklist(action, inner) && (self.tracklist.answers(
                        m,
                        true,
                        post.tracklist,
                        inner,
                    ) || self.tracklist.answers(m, false, post.tracklist, inner))
            },
            Message::Playlist(m) => {
                &&& post == PlayerView { playlist: self.playlist.after(m), ..self }
                &&& exists|inner: ActionView<playlist::Instruction, playlist::Message>|
                    #![trigger wraps_playlist(action, inner)]
                    wraps_playlist(action, inner) && inner.messages is None && self.playlist.asks(
                        m,
                        inner.instruction,
                    )
            },
            Message::ControlBar(m) => {
                &&& post == PlayerView { control_bar: post.control_bar, ..self }
                &&& match m {
                    control_bar::Message::Resize(_) => exists|y: u16, start: u16|
                        post.control_bar == #[trigger] self.control_bar.placed(y, start),
                    _ => post.control_bar == self.control_bar.after(m),
                }
                &&& wraps_control_bar(
                    action,
                    ActionView { instruction: self.control_bar.asks(m), messages: None },
                )
            },
        }
    }
}

/// The constraints that cut the screen into header, list and control bar.
fn screen_rows() -> (constraints: Vec<Constraint>)
    ensures
        constraints@ == seq![
            Constraint::Length(HEADER_HEIGHT),
            Constraint::Fill(1),
            Constraint::Length(CONTROL_BAR_HEIGHT),
        ],
{
    let mut constraints = Vec::new();
    constraints.push(Constraint::Length(HEADER_HEIGHT));
    constraints.push(Constraint::Fill(1));
    constraints.push(Constraint::Length(CONTROL_BAR_HEIGHT));
    constraints
}

impl Player {
    /// The screen in `area`, with the track list in front, over the library
    /// and the playlists that were read. The header, the list and the control
    /// bar get the rows that the layout gives them; each spans the width of
    /// the screen.
    pub fn new(tracklist: Rc<Vec<Track>>, playlists: Vec<PlaylistMd>, area: Rect) -> (screen: Self)
        ensures
            screen@.header_name == "HEADER"@,
            screen@.header_area.x == area.x && screen@.header_area.width == area.width,
            screen@.tracklist.area == screen@.playlist.area,
            screen@.tracklist.area.x == area.x && screen@.tracklist.area.width == area.width,
            screen@.tracklist == (TracklistView {
                library: tracklist@,
                base: tracklist@,
                queue: QueueState {
                    working: tracklist@,
                    auto_queue: Seq::empty(),
                    manual_queue: Seq::empty(),
                    history: Seq::empty(),
                    current: None,
                    from_auto: false,
                    repeat: Repeat::Off,
                },
                selected_playlist: None,
                shuffle: Shuffle::Off,
                cursor: 0,
                show_cursor: true,
                y_offset: 0,
                area: screen@.tracklist.area,
            }),
            screen@.playlist == (PlaylistsView {
                list: playlists@,
                buffer: Seq::empty(),
                selected_track: None,
                focused_widget: playlist::Focus::Parent,
                cursor: 0,
                show_cursor: true,
                y_offset: 0,
                area: screen@.playlist.area,
            }),
            screen@.control_bar.progress == 0,
            screen@.control_bar.shuffle == Shuffle::Off,
            screen@.control_bar.repeat == Repeat::Off,
            !screen@.control_bar.paused,
            screen@.control_bar.name.len() == 0,
            screen@.mode == Mode::Default,
            screen@.focused_widget == Focus::Tracklist,
            screen@.area == area,
    {
        let parts = rows(area, &screen_rows());
        let header_area = parts[0];
        let playlist_area = parts[1];
        let control_area = parts[2];
        Player {
            header: Header::new("HEADER".to_owned(), header_area),
            tracklist: Tracklist::new(tracklist, playlist_area, Shuffle::Off, Repeat::Off),
            playlist: Playlist::new(playlists, playlist_area),
            mode: Mode::Default,
            control_bar: ControlBar::new(control_area, 0, Shuffle::Off, Repeat::Off),
            focused_widget: Focus::Tracklist,
            area,
        }
    }

    /// Hands `message` to the widget that owns it.
    pub fn update(&mut self, message: Message) -> (action: Action<Instruction, Message>)
        requires
            old(self)@.accepts(message),
        ensures
            old(self)@.answers(message, final(self)@, action@),
    {
        match message {
            Message::Tracklist(m) => {
                let inner = self.tracklist.update(m);
                let ghost answer = inner@;
                let mark = |m: tracklist::Message| -> (marked: Message)
                    ensures
                        marked == Message::Tracklist(m),
                    { Message::Tracklist(m) };
                let mark_instruction = |i: tracklist::Instruction| -> (marked: Instruction)
                    ensures
                        marked == Instruction::Tracklist(i),
                    { Instruction::Tracklist(i) };
                let action = inner.map(mark).map_instruction(mark_instruction);
                proof {
                    assert(wraps_tracklist(action@, answer));
                }
                action
            },
            Message::Playlist(m) => {
                let inner = self.playlist.update(m);
                let ghost answer = inner@;
                let mark = |m: playlist::Message| -> (marked: Message)
                    ensures
                        marked == Message::Playlist(m),
                    { Message::Playlist(m) };
                let mark_instruction = |i: playlist::Instruction| -> (marked: Instruction)
                    ensures
                        marked == Instruction::Playlist(i),
                    { Instruction::Playlist(i) };
                let action = inner.map(mark).map_instruction(mark_instruction);
                proof {
                    assert(wraps_playlist(action@, answer));
                }
                action
            },
            Message::ControlBar(m) => {
                let inner = self.control_bar.update(m);
                let ghost answer = inner@;
                let mark = |m: control_bar::Message| -> (marked: Message)
                    ensures
                        marked == Message::ControlBar(m),
                    { Message::ControlBar(m) };
                let mark_instruction = |i: control_bar::Instruction| -> (marked: Instruction)
                    ensures
                        marked == Instruction::ControlBar(i),
                    { Instruction::ControlBar(i) };
                let action = inner.map(mark).map_instruction(mark_instruction);
                proof {
                    assert(wraps_control_bar(action@, answer));
                }
                action
            },
        }
    }

    /// Nothing happens on the enter key at the level of the screen.
    pub fn dispatch_enter(&mut self)
        ensures
            final(self)@ == old(self)@,
    {
    }

    /// Brings the other list to the front.
    pub fn switch_window(&mut self)
        ensures
            final(self)@ == (PlayerView {
                focused_widget: match old(self)@.focused_widget {
                    Focus::Tracklist => Focus::Playlist,
                    Focus::Playlist => Focus::Tracklist,
                },
                ..old(self)@
            }),
    {
        match self.focused_widget {
            Focus::Tracklist => self.focused_widget = Focus::Playlist,
            Focus::Playlist => self.focused_widget = Focus::Tracklist,
        }
    }

    /// Puts a track at the back of the manual queue.
    pub fn push_front_manual_queue(&mut self, track: Track)
        ensures
            final(self)@ == (PlayerView {
                tracklist: old(self)@.tracklist.with_queue(
                    QueueState {
                        manual_queue: old(self)@.tracklist.queue.manual_queue.push(track),
                        ..old(self)@.tracklist.queue
                    },
                ),
                ..old(self)@
            }),
    {
        self.tracklist.manual_queue.push_back(track);
    }

    /// Splits the working list, as it is, at `index`: the tracks before it
    /// become the history, the others the lookahead queue.
    pub fn set_auto_queue(&mut self, index: usize)
        requires
            index <= old(self)@.tracklist.queue.working.len(),
        ensures
            final(self)@ == (PlayerView {
                tracklist: old(self)@.tracklist.with_queue(
                    old(self)@.tracklist.queue.split_at(
                        old(self)@.tracklist.queue.working,
                        index as int,
                    ),
                ),
                ..old(self)@
            }),
    {
        let list = self.tracklist.list.clone();
        self.tracklist.split_queues(list, index);
    }

    pub fn get_current(&self) -> (current: Option<&Track>)
        ensures
            match current {
                Some(track) => self@.tracklist.queue.current == Some(*track),
                None => self@.tracklist.queue.current is None,
            },
    {
        self.tracklist.current_track.as_ref()
    }

    /// Takes the current track away.
    pub fn take_current(&mut self) -> (current: Option<Track>)
        ensures
            current == old(self)@.tracklist.queue.current,
            final(self)@ == (PlayerView {
                tracklist: old(self)@.tracklist.with_queue(
                    QueueState { current: None, ..old(self)@.tracklist.queue },
                ),
                ..old(self)@
            }),
    {
        self.tracklist.current_track.take()
    }

    /// Makes `current` the current track and shows the stem of its file
    /// name in the control bar. The path must have a file name.
    pub fn set_current(&mut self, current: Track)
        requires
            file_stem_of(current.path@) is Some,
        ensures
            final(self)@ == (PlayerView {
                control_bar: ControlBarView {
                    name: file_stem_of(current.path@)->0,
                    ..old(self)@.control_bar
                },
                tracklist: old(self)@.tracklist.with_queue(
                    QueueState { current: Some(current), ..old(self)@.tracklist.queue },
                ),
                ..old(self)@
            }),
    {
        match file_stem(current.path.as_str()) {
            Some(name) => {
                self.control_bar.name = name;
            },
            None => {
                proof {
                    assert(false);
                }
            },
        }
        self.tracklist.current_track = Some(current);
    }

    /// Makes `current` the current track, if its path has a file name, and
    /// says whether it did. Where it did not, the track comes back.
    pub fn try_set_current(&mut self, current: Track) -> (rejected: Option<Track>)
        ensures
            match rejected {
                None => file_stem_of(current.path@) is Some && final(self)@ == (PlayerView {
                    control_bar: ControlBarView {
                        name: file_stem_of(current.path@)->0,
                        ..old(self)@.control_bar
                    },
                    tracklist: old(self)@.tracklist.with_queue(
                        QueueState { current: Some(current), ..old(self)@.tracklist.queue },
                    ),
                    ..old(self)@
                }),
                Some(track) => file_stem_of(current.path@) is None && track == current && final(self)@ == old(self)@,
            },
    {
        match file_stem(current.path.as_str()) {
            Some(_) => {
                self.set_current(current);
                None
            },
            None => Some(current),
        }
    }

    /// Clears the current track and its name in the control bar.
    pub fn unset_current(&mut self)
        ensures
            final(self)@ == (PlayerView {
                control_bar: ControlBarView { name: Seq::empty(), ..old(self)@.control_bar },
                tracklist: old(self)@.tracklist.with_queue(
                    QueueState { current: None, ..old(self)@.tracklist.queue },
                ),
                ..old(self)@
            }),
    {
        self.control_bar.name = String::new();
        self.tracklist.current_track = None;
    }

    /// The track under the cursor of the track list.
    pub fn get_under_cursor(&self) -> (track: Option<Track>)
        ensures
            track == self@.tracklist.under_cursor(),
    {
        self.tracklist.get_under_cursor()
    }

    /// Takes the track at the front of the lookahead queue.
    pub fn pop_auto_queue(&mut self) -> (track: Option<Track>)
        ensures
            old(self)@.tracklist.queue.auto_queue.len() > 0 ==> track == Some(
                old(self)@.tracklist.queue.auto_queue[0],
            ) && final(self)@ == (PlayerView {
                tracklist: old(self)@.tracklist.with_queue(
                    QueueState {
                        auto_queue: old(self)@.tracklist.queue.auto_queue.drop_first(),
                        ..old(self)@.tracklist.queue
                    },
                ),
                ..old(self)@
            }),
            old(self)@.tracklist.queue.auto_queue.len() == 0 ==> track is None && final(self)@
                == old(self)@,
    {
        let track = self.tracklist.auto_queue.pop_front();
        proof {
            if old(self)@.tracklist.queue.auto_queue.len() > 0 {
                assert(self.tracklist.auto_queue@ == old(self)@.tracklist.queue.auto_queue.drop_first());
            }
        }
        track
    }

    /// The manual queue, to put tracks in and take tracks out.
    pub fn manual_queue_mut(&mut self) -> (queue: &mut VecDeque<Track>)
        ensures
            queue@ == old(self)@.tracklist.queue.manual_queue,
            final(self)@ == (PlayerView {
                tracklist: old(self)@.tracklist.with_queue(
                    QueueState { manual_queue: final(queue)@, ..old(self)@.tracklist.queue },
                ),
                ..old(self)@
            }),
    {
        &mut self.tracklist.manual_queue
    }

    /// Steps forward as the track list does, under the repeat mode given.
    /// The repeat mode that the track list keeps is not changed.
    pub fn get_next(&mut self, repeat: Repeat) -> (next: Option<Track>)
        ensures
            next == (QueueState { repeat, ..old(self)@.tracklist.queue }).next_track(),
            final(self)@ == (PlayerView {
                tracklist: old(self)@.tracklist.with_queue(
                    QueueState {
                        repeat: old(self)@.tracklist.queue.repeat,
                        ..(QueueState { repeat, ..old(self)@.tracklist.queue }).advance()
                    },
                ),
                ..old(self)@
            }),
    {
        let kept = self.tracklist.repeat;
        self.tracklist.repeat = repeat;
        let next = self.tracklist.get_next();
        self.tracklist.repeat = kept;
        next
    }

    /// Steps backward as the track list does.
    pub fn get_prev(&mut self) -> (prev: Option<Track>)
        ensures
            prev == old(self)@.tracklist.queue.prev_track(),
            final(self)@ == (PlayerView {
                tracklist: old(self)@.tracklist.with_queue(old(self)@.tracklist.queue.retreat()),
                ..old(self)@
            }),
    {
        self.tracklist.get_prev()
    }

    /// Moves the cursor of the list in front up.
    pub fn cursor_up(&mut self, count: u16)
        ensures
            final(self)@ == match old(self)@.focused_widget {
                Focus::Tracklist => PlayerView {
                    tracklist: old(self)@.tracklist.cursor_up(count),
                    ..old(self)@
                },
                Focus::Playlist => PlayerView {
                    playlist: old(self)@.playlist.after(playlist::Message::CursorUp(count)),
                    ..old(self)@
                },
            },
    {
        match self.focused_widget {
            Focus::Tracklist => self.tracklist.cursor_up(count),
            Focus::Playlist => self.playlist.cursor_up(count),
        }
    }

    /// Moves the cursor of the list in front down.
    pub fn cursor_down(&mut self, count: u16)
        ensures
            final(self)@ == match old(self)@.focused_widget {
                Focus::Tracklist => PlayerView {
                    tracklist: old(self)@.tracklist.cursor_down(count),
                    ..old(self)@
                },
                Focus::Playlist => PlayerView {
                    playlist: old(self)@.playlist.after(playlist::Message::CursorDown(count)),
                    ..old(self)@
                },
            },
    {
        match self.focused_widget {
            Focus::Tracklist => self.tracklist.cursor_down(count),
            Focus::Playlist => self.playlist.cursor_down(count),
        }
    }

    /// Lays the screen out for a terminal of the size given: the header,
    /// the track list and the control bar get the rows that the layout gives
    /// them, each from the left edge and as wide as the terminal.
    pub fn resize(&mut self, width: u16, height: u16)
        ensures
            final(self)@.header_area.x == 0 && final(self)@.header_area.width == width,
            final(self)@.tracklist.area.x == 0 && final(self)@.tracklist.area.width == width,
            exists|y: u16, start: u16|
                final(self)@ == (PlayerView {
                    header_area: final(self)@.header_area,
                    tracklist: TracklistView {
                        area: final(self)@.tracklist.area,
                        ..old(self)@.tracklist
                    },
                    control_bar: #[trigger] old(self)@.control_bar.placed(y, start),
                    ..old(self)@
                }),
    {
        let area = Rect::new(0, 0, width, height);
        let parts = rows(area, &screen_rows());
        let header_area = parts[0];
        let playlist_area = parts[1];
        let control_area = parts[2];
        self.header.resize(header_area);
        self.tracklist.area = playlist_area;
        self.control_bar.resize(control_area);
    }
}

} // verus!

//! The list of playlists, with the input box for the name of a new one.

use crate::action::Action;
use crate::input::KeyCode;
use crate::input::KeyModifiers;
use crate::layout::move_down;
use crate::layout::move_up;
use crate::layout::moved_down;
use crate::layout::moved_up;
use crate::layout::Rect;
use crate::model::playlist::PlaylistMd;
use crate::model::track::Track;
use crate::session::Mode;
use crate::widget::popup;
use crate::widget::popup::Popup;
use vstd::prelude::*;

verus! {

pub struct Playlist {
    pub list: Vec<PlaylistMd>,
    pub popup: Popup,
    /// The track that waits to be added to a playlist.
    pub selected_track: Option<Track>,
    pub focused_widget: Focus,
    /// The selected row, counted from the top of the visible part.
    pub cursor: u16,
    pub show_cursor: bool,
    /// The number of rows scrolled out at the top.
    pub y_offset: u16,
    pub area: Rect,
}

/// What the list of playlists asks the session to do.
#[derive(Debug, Clone)]
pub enum Instruction {
    FocusTracklist,
    SetPlaylist(PlaylistMd),
    AddTrackToPlaylist(PlaylistMd, Track),
    DeletePlaylist(PlaylistMd),
    SetMode(Mode),
    CreatePlaylist(String),
}

#[derive(Debug, Clone)]
pub enum Message {
    Popup(popup::Message),
    /// The playlists were read anew.
    SetPlaylists(Vec<PlaylistMd>),
    FocusTracklist,
    /// Show the playlist under the cursor in the track list.
    SelectPlaylist,
    /// A track waits to be added to a playlist.
    SetTrack(Track),
    /// Add the waiting track to the playlist under the cursor.
    AddSelectedToPlaylist,
    DeletePlaylist,
    /// Create a playlist with the name in the input box.
    CreatePlaylist,
    OpenPopup,
    CursorDown(u16),
    CursorUp(u16),
    Resize(Rect),
}

/// The part of the widget that receives the keys.
#[derive(Debug, Clone, Copy, PartialEq, Eq, Structural)]
pub enum Focus {
    Parent,
    Popup,
}

/// The widget as contracts speak of it.
#[verifier::ext_equal]
pub struct PlaylistsView {
    pub list: Seq<PlaylistMd>,
    /// The text in the input box.
    pub buffer: Seq<char>,
    pub selected_track: Option<Track>,
    pub focused_widget: Focus,
    pub cursor: u16,
    pub show_cursor: bool,
    pub y_offset: u16,
    pub area: Rect,
}

impl View for Playlist {
    type V = PlaylistsView;

    open spec fn view(&self) -> PlaylistsView {
        PlaylistsView {
            list: self.list@,
            buffer: self.popup.buffer@,
            selected_track: self.selected_track,
            focused_widget: self.focused_widget,
            cursor: self.cursor,
            show_cursor: self.show_cursor,
            y_offset: self.y_offset,
            area: self.area,
        }
    }
}

/// The playlists of `list` whose identifier is not `uuid`, in their order.
pub open spec fn others(list: Seq<PlaylistMd>, uuid: u128) -> Seq<PlaylistMd> {
    list.filter(|p: PlaylistMd| p.uuid != uuid)
}

/// Filtering a sequence that grew by one item: the item is kept or not.
proof fn lemma_others_push(list: Seq<PlaylistMd>, last: PlaylistMd, uuid: u128)
    ensures
        others(list.push(last), uuid) == if last.uuid != uuid {
            others(list, uuid).push(last)
        } else {
            others(list, uuid)
        },
{
    let pred = |p: PlaylistMd| p.uuid != uuid;
    let whole = list.push(last);
    assert(whole.drop_last() == list);
    reveal(Seq::filter);
    assert(whole.filter(pred) == if pred(last) {
        list.filter(pred).push(last)
    } else {
        list.filter(pred)
    });
}

/// The message that a key stands for in the list of playlists itself.
pub open spec fn parent_key(code: KeyCode, has_track: bool) -> Option<Message> {
    match code {
        KeyCode::Enter => if has_track {
            Some(Message::AddSelectedToPlaylist)
        } else {
            Some(Message::SelectPlaylist)
        },
        KeyCode::Char(c) => if c == 'j' {
            Some(Message::CursorDown(1))
        } else if c == 'k' {
            Some(Message::CursorUp(1))
        } else if c == 'p' {
            Some(Message::FocusTracklist)
        } else if c == 'd' {
            Some(Message::DeletePlaylist)
        } else if c == 'c' {
            Some(Message::OpenPopup)
        } else {
            None
        },
        _ => None,
    }
}

/// The message that a key stands for while the input box is open: the End
/// key creates the playlist, the other keys go to the box.
pub open spec fn popup_key(code: KeyCode) -> Option<Message> {
    match code {
        KeyCode::End => Some(Message::CreatePlaylist),
        KeyCode::Char(ch) => Some(Message::Popup(popup::Message::Push(ch))),
        KeyCode::Backspace => Some(Message::Popup(popup::Message::Pop)),
        _ => None,
    }
}

impl PlaylistsView {
    pub open spec fn cursor_index(self) -> int {
        self.cursor + self.y_offset
    }

    pub open spec fn under_cursor(self) -> Option<PlaylistMd> {
        if self.cursor_index() < self.list.len() {
            Some(self.list[self.cursor_index()])
        } else {
            None
        }
    }

    /// The widget after the playlists were read anew. Where the list got
    /// shorter by some rows, the view first scrolls back by as many; what
    /// the scroll offset cannot take up moves the cursor up.
    pub open spec fn with_playlists(self, playlists: Seq<PlaylistMd>) -> PlaylistsView {
        if self.list.len() > playlists.len() {
            let diff = self.list.len() - playlists.len();
            let left = if diff > self.y_offset {
                diff - self.y_offset
            } else {
                0
            };
            PlaylistsView {
                list: playlists,
                y_offset: if self.y_offset > diff {
                    (self.y_offset - diff) as u16
                } else {
                    0
                },
                cursor: if self.cursor > left {
                    (self.cursor - left) as u16
                } else {
                    0
                },
                ..self
            }
        } else {
            PlaylistsView { list: playlists, ..self }
        }
    }

    /// Whether the widget in state `self` can answer `message`: adding the
    /// waiting track wants a track that waits.
    pub open spec fn accepts(self, message: Message) -> bool {
        message is AddSelectedToPlaylist ==> self.selected_track is Some
    }

    /// The widget after `message`.
    pub open spec fn after(self, message: Message) -> PlaylistsView {
        match message {
            Message::Popup(popup::Message::Push(ch)) => PlaylistsView {
                buffer: self.buffer.push(ch),
                ..self
            },
            Message::Popup(popup::Message::Pop) => PlaylistsView {
                buffer: if self.buffer.len() > 0 {
                    self.buffer.drop_last()
                } else {
                    self.buffer
                },
                ..self
            },
            Message::SetPlaylists(playlists) => self.with_playlists(playlists@),
            Message::SetTrack(track) => PlaylistsView { selected_track: Some(track), ..self },
            Message::AddSelectedToPlaylist => PlaylistsView { selected_track: None, ..self },
            Message::DeletePlaylist => match self.under_cursor() {
                Some(md) => PlaylistsView { list: others(self.list, md.uuid), ..self },
                None => self,
            },
            Message::CreatePlaylist => PlaylistsView {
                focused_widget: Focus::Parent,
                buffer: Seq::empty(),
                ..self
            },
            Message::OpenPopup => PlaylistsView { focused_widget: Focus::Popup, ..self },
            Message::CursorDown(count) => {
                let place = moved_down(
                    self.cursor,
                    self.y_offset,
                    count,
                    self.area.height,
                    self.list.len(),
                );
                PlaylistsView { cursor: place.0, y_offset: place.1, ..self }
            },
            Message::CursorUp(count) => {
                let place = moved_up(self.cursor, self.y_offset, count);
                PlaylistsView { cursor: place.0, y_offset: place.1, ..self }
            },
            Message::Resize(area) => PlaylistsView { area, ..self },
            Message::FocusTracklist => self,
            Message::SelectPlaylist => self,
        }
    }

    /// Whether `instruction` is what the widget in state `self` asks of the
    /// session on `message`.
    pub open spec fn asks(self, message: Message, instruction: Option<Instruction>) -> bool {
        match message {
            Message::FocusTracklist => instruction == Some(Instruction::FocusTracklist),
            Message::SelectPlaylist => instruction == match self.under_cursor() {
                Some(md) => Some(Instruction::SetPlaylist(md)),
                None => None,
            },
            Message::AddSelectedToPlaylist => instruction == match self.under_cursor() {
                Some(md) => Some(Instruction::AddTrackToPlaylist(md, self.selected_track->0)),
                None => None,
            },
            Message::DeletePlaylist => instruction == match self.under_cursor() {
                Some(md) => Some(Instruction::DeletePlaylist(md)),
                None => None,
            },
            Message::CreatePlaylist => {
                &&& instruction matches Some(Instruction::CreatePlaylist(name))
                &&& name@ == self.buffer
            },
            Message::OpenPopup => instruction == Some(Instruction::SetMode(Mode::Write)),
            _ => instruction is None,
        }
    }
}

impl Playlist {
    /// The widget over the playlists that were read.
    pub fn new(list: Vec<PlaylistMd>, area: Rect) -> (widget: Self)
        ensures
            widget@ == (PlaylistsView {
                list: list@,
                buffer: Seq::empty(),
                selected_track: None,
                focused_widget: Focus::Parent,
                cursor: 0,
                show_cursor: true,
                y_offset: 0,
                area,
            }),
    {
        Playlist {
            list,
            popup: Popup::new(),
            focused_widget: Focus::Parent,
            selected_track: None,
            cursor: 0,
            show_cursor: true,
            y_offset: 0,
            area,
        }
    }

    /// The message that a key stands for. While the input box is open the
    /// keys go to it, but for the End key.
    pub fn handle_input(&self, code: KeyCode, mods: KeyModifiers) -> (message: Option<Message>)
        ensures
            message == match self.focused_widget {
                Focus::Parent => parent_key(code, self.selected_track is Some),
                Focus::Popup => popup_key(code),
            },
    {
        match self.focused_widget {
            Focus::Parent => {
                match code {
                    KeyCode::Enter => {
                        if self.selected_track.is_some() {
                            Some(Message::AddSelectedToPlaylist)
                        } else {
                            Some(Message::SelectPlaylist)
                        }
                    },
                    KeyCode::Char(c) => {
                        if c == 'j' {
                            Some(Message::CursorDown(1))
                        } else if c == 'k' {
                            Some(Message::CursorUp(1))
                        } else if c == 'p' {
                            Some(Message::FocusTracklist)
                        } else if c == 'd' {
                            Some(Message::DeletePlaylist)
                        } else if c == 'c' {
                            Some(Message::OpenPopup)
                        } else {
                            None
                        }
                    },
                    _ => None,
                }
            },
            Focus::Popup => {
                match code {
                    KeyCode::End => Some(Message::CreatePlaylist),
                    _ => match self.popup.handle_input(code, mods) {
                        Some(m) => Some(Message::Popup(m)),
                        None => None,
                    },
                }
            },
        }
    }

    /// Answers `message`. There are never follow-up messages.
    pub fn update(&mut self, message: Message) -> (action: Action<Instruction, Message>)
        requires
            old(self)@.accepts(message),
        ensures
            final(self)@ == old(self)@.after(message),
            old(self)@.asks(message, action@.instruction),
            action@.messages is None,
    {
        match message {
            Message::Popup(message) => {
                let task = self.popup.update(message);
                let mut action = Action::none();
                let wrap = |m: popup::Message| -> (wrapped: Message)
                    ensures
                        wrapped == Message::Popup(m),
                    { Message::Popup(m) };
                action.message = task.map(wrap);
                action
            },
            Message::SetPlaylists(playlists) => {
                if self.list.len() > playlists.len() {
                    let diff: usize = self.list.len() - playlists.len();
                    let y_offset = self.y_offset as usize;
                    let left: usize = if diff > y_offset {
                        diff - y_offset
                    } else {
                        0
                    };
                    self.y_offset = if y_offset > diff {
                        (y_offset - diff) as u16
                    } else {
                        0
                    };
                    self.cursor = if self.cursor as usize > left {
                        (self.cursor as usize - left) as u16
                    } else {
                        0
                    };
                }
                self.list = playlists;
                Action::none()
            },
            Message::FocusTracklist => Action::instruction(Instruction::FocusTracklist),
            Message::SelectPlaylist => {
                match self.get_under_cursor() {
                    Some(playlist_md) => Action::instruction(Instruction::SetPlaylist(playlist_md)),
                    None => Action::none(),
                }
            },
            Message::SetTrack(track) => {
                self.selected_track = Some(track);
                Action::none()
            },
            Message::AddSelectedToPlaylist => {
                match self.selected_track.take() {
                    Some(selected) => {
                        match self.get_under_cursor() {
                            Some(playlist_md) => Action::instruction(
                                Instruction::AddTrackToPlaylist(playlist_md, selected),
                            ),
                            None => Action::none(),
                        }
                    },
                    None => Action::none(),
                }
            },
            Message::DeletePlaylist => {
                match self.get_under_cursor() {
                    Some(playlist_md) => {
                        self.remove(playlist_md.uuid);
                        Action::instruction(Instruction::DeletePlaylist(playlist_md))
                    },
                    None => Action::none(),
                }
            },
            Message::CreatePlaylist => {
                self.focused_widget = Focus::Parent;
                let name = self.popup.buffer.clone();
                self.popup.buffer = String::new();
                Action::instruction(Instruction::CreatePlaylist(name))
            },
            Message::OpenPopup => {
                self.focused_widget = Focus::Popup;
                Action::instruction(Instruction::SetMode(Mode::Write))
            },
            Message::CursorDown(count) => {
                self.cursor_down(count);
                Action::none()
            },
            Message::CursorUp(count) => {
                self.cursor_up(count);
                Action::none()
            },
            Message::Resize(area) => {
                self.resize(area);
                Action::none()
            },
        }
    }

    /// The playlist that the cursor points at.
    pub fn get_under_cursor(&self) -> (md: Option<PlaylistMd>)
        ensures
            md == self@.under_cursor(),
    {
        let index = self.cursor as usize + self.y_offset as usize;
        if index < self.list.len() {
            Some(self.list[index].clone())
        } else {
            None
        }
    }

    /// Takes the playlists with identifier `uuid` out of the list.
    fn remove(&mut self, uuid: u128)
        ensures
            final(self)@ == (PlaylistsView { list: others(old(self)@.list, uuid), ..old(self)@ }),
    {
        let mut kept: Vec<PlaylistMd> = Vec::new();
        let mut i: usize = 0;
        while i < self.list.len()
            invariant
                i <= self.list.len(),
                *self == *old(self),
                kept@ == others(self.list@.subrange(0, i as int), uuid),
            decreases self.list.len() - i,
        {
            proof {
                let before = self.list@.subrange(0, i as int);
                assert(self.list@.subrange(0, i + 1) == before.push(self.list@[i as int]));
                lemma_others_push(before, self.list@[i as int], uuid);
            }
            if self.list[i].uuid != uuid {
                kept.push(self.list[i].clone());
            }
            i += 1;
        }
        proof {
            assert(self.list@.subrange(0, self.list@.len() as int) == self.list@);
        }
        self.list = kept;
    }

    pub fn cursor_up(&mut self, count: u16)
        ensures
            final(self)@ == old(self)@.after(Message::CursorUp(count)),
    {
        let place = move_up(self.cursor, self.y_offset, count);
        self.cursor = place.0;
        self.y_offset = place.1;
    }

    pub fn cursor_down(&mut self, count: u16)
        ensures
            final(self)@ == old(self)@.after(Message::CursorDown(count)),
    {
        let place = move_down(self.cursor, self.y_offset, count, self.area.height, self.list.len());
        self.cursor = place.0;
        self.y_offset = place.1;
    }

    pub fn resize(&mut self, area: Rect)
        ensures
            final(self)@ == (PlaylistsView { area, ..old(self)@ }),
    {
        self.area = area;
    }
}

} // verus!

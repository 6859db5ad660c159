//! The plain list of the library: it scrolls, and it asks for the selected
//! track to be played.

use crate::components::utils::VerticalScroll;
use crate::components::ComponentCommand;
use crate::config::KeyConfig;
use crate::event::EventState;
use crate::event::Key;
use crate::model::track::Track;
use vstd::prelude::*;

verus! {

pub struct TracklistComponent {
    pub library: Vec<Track>,
    pub scroll: VerticalScroll,
    pub key_config: KeyConfig,
}

/// What the list asks of the session.
pub enum Command {
    SetCurrentTrack { path: String },
}

impl TracklistComponent {
    pub fn new(lib: Vec<Track>, key_config: KeyConfig) -> (list: Self)
        ensures
            list.library == lib,
            list.key_config == key_config,
            list.scroll.pos == 0,
            list.scroll.y_offset == 0,
            list.scroll.going_down,
    {
        Self { library: lib, scroll: VerticalScroll::new(), key_config }
    }

    /// Moves the selection to the next track.
    pub fn next_col(&mut self)
        ensures
            final(self).library == old(self).library,
            final(self).key_config == old(self).key_config,
            final(self).scroll.pos == if old(self).scroll.pos + 1 < old(self).library@.len() {
                old(self).scroll.pos + 1
            } else {
                old(self).scroll.pos as int
            },
            final(self).scroll.going_down,
            final(self).scroll.y_offset == old(self).scroll.y_offset,
    {
        self.scroll.move_down(self.library.len());
    }

    /// Moves the selection to the track before.
    pub fn prev_col(&mut self)
        ensures
            final(self).library == old(self).library,
            final(self).key_config == old(self).key_config,
            final(self).scroll.pos == if old(self).scroll.pos > 0 {
                old(self).scroll.pos - 1
            } else {
                0
            },
            !final(self).scroll.going_down,
            final(self).scroll.y_offset == old(self).scroll.y_offset,
    {
        self.scroll.move_up();
    }

    /// The command that plays the selected track. A track must be selected.
    pub fn play_selected(&self) -> (command: ComponentCommand)
        requires
            self.scroll.pos < self.library@.len(),
        ensures
            command == ComponentCommand::TracklistComponent(
                Command::SetCurrentTrack { path: self.library@[self.scroll.pos as int].path },
            ),
    {
        let index = self.scroll.pos();
        let path = self.library[index].path.clone();
        ComponentCommand::TracklistComponent(Command::SetCurrentTrack { path })
    }

    /// Answers a key: the keys for scrolling move the selection, the key for
    /// playing yields the command for the session, and any other key is not
    /// consumed. Scrolling up takes precedence over scrolling down, and both
    /// over playing, where one key is bound to several of them. The key for
    /// playing wants a selected track.
    pub fn event(&mut self, key: Key) -> (answer: (EventState, Option<ComponentCommand>))
        requires
            key == old(self).key_config.play_audio && key != old(self).key_config.scroll_up && key
                != old(self).key_config.scroll_down ==> old(self).scroll.pos < old(
                self,
            ).library@.len(),
        ensures
            final(self).library == old(self).library,
            final(self).key_config == old(self).key_config,
            final(self).scroll.y_offset == old(self).scroll.y_offset,
            key == old(self).key_config.scroll_up ==> {
                &&& answer == (EventState::Consumed, None::<ComponentCommand>)
                &&& final(self).scroll.pos == if old(self).scroll.pos > 0 {
                    old(self).scroll.pos - 1
                } else {
                    0
                }
                &&& !final(self).scroll.going_down
            },
            key != old(self).key_config.scroll_up && key == old(self).key_config.scroll_down ==> {
                &&& answer == (EventState::Consumed, None::<ComponentCommand>)
                &&& final(self).scroll.pos == if old(self).scroll.pos + 1 < old(
                    self,
                ).library@.len() {
                    old(self).scroll.pos + 1
                } else {
                    old(self).scroll.pos as int
                }
                &&& final(self).scroll.going_down
            },
            key != old(self).key_config.scroll_up && key != old(self).key_config.scroll_down && key
                == old(self).key_config.play_audio ==> {
                &&& answer == (
                    EventState::Consumed,
                    Some(
                        ComponentCommand::TracklistComponent(
                            Command::SetCurrentTrack {
                                path: old(self).library@[old(self).scroll.pos as int].path,
                            },
                        ),
                    ),
                )
                &&& final(self).scroll == old(self).scroll
            },
            key != old(self).key_config.scroll_up && key != old(self).key_config.scroll_down && key
                != old(self).key_config.play_audio ==> {
                &&& answer == (EventState::NotConsumed, None::<ComponentCommand>)
                &&& final(self).scroll == old(self).scroll
            },
    {
        if key == self.key_config.scroll_up {
            self.prev_col();
            (EventState::Consumed, None)
        } else if key == self.key_config.scroll_down {
            self.next_col();
            (EventState::Consumed, None)
        } else if key == self.key_config.play_audio {
            let command = self.play_selected();
            (EventState::Consumed, Some(command))
        } else {
            (EventState::NotConsumed, None)
        }
    }
}

} // verus!

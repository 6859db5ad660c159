//! What the session keeps besides its widgets.

use crate::components::player_controls::percent;
use crate::components::player_controls::progress_percent;
use crate::components::ComponentCommand;
use crate::components::PlayerControlsComponent;
use crate::components::TracklistComponent;
use crate::config::Config;
use crate::current_track::CurrentTrack;
use crate::event::AudioMessage;
use crate::event::Command;
use crate::event::EventState;
use crate::event::Key;
use crate::model::track::Track;
use crate::paths::file_stem_of;
use crate::paths::file_stem_of_path;
use vstd::prelude::*;

verus! {

/// The part of the screen that receives the keys.
#[derive(Clone, Copy, Debug, PartialEq, Eq, Structural)]
pub enum Focus {
    Tracklist,
    Playlist,
}

/// How keys are read: as commands, or as text for an input box.
#[derive(Clone, Copy, Debug, PartialEq, Eq, Structural)]
pub enum Mode {
    Normal,
    Write,
}

impl Focus {
    /// The other part of the screen.
    pub open spec fn other(self) -> Focus {
        match self {
            Focus::Tracklist => Focus::Playlist,
            Focus::Playlist => Focus::Tracklist,
        }
    }

    pub fn switched(self) -> (focus: Focus)
        ensures
            focus == self.other(),
    {
        match self {
            Focus::Tracklist => Focus::Playlist,
            Focus::Playlist => Focus::Tracklist,
        }
    }
}

} // verus!

verus! {

/// The key-driven session: the plain list of the library, the controls that
/// show what is playing, and the track that is playing.
pub struct App {
    pub tracklist: TracklistComponent,
    pub player_controls: PlayerControlsComponent,
    pub current_track: Option<CurrentTrack>,
    pub focus: Focus,
    pub config: Config,
}

impl App {
    /// The session over the tracks that were found, with the track list in
    /// front and nothing playing.
    pub fn new(tracks: Vec<Track>, config: Config) -> (app: Self)
        ensures
            app.tracklist.library == tracks,
            app.tracklist.key_config == config.key_config,
            app.tracklist.scroll.pos == 0,
            app.tracklist.scroll.y_offset == 0,
            app.tracklist.scroll.going_down,
            app.player_controls.name is None,
            app.player_controls.progress == 0,
            app.current_track is None,
            app.focus == Focus::Tracklist,
            app.config == config,
    {
        App {
            tracklist: TracklistComponent::new(tracks, config.key_config),
            player_controls: PlayerControlsComponent::new(),
            current_track: None,
            focus: Focus::Tracklist,
            config,
        }
    }

    /// Hands a key to the track list, which must be in front, and gives what
    /// the list says of the key and the command that it has for the session.
    pub fn event(&mut self, key: Key) -> (answer: (EventState, Option<ComponentCommand>))
        requires
            old(self).focus == Focus::Tracklist,
            key == old(self).tracklist.key_config.play_audio && key != old(self).tracklist.key_config.scroll_up && key != old(self).tracklist.key_config.scroll_down
                ==> old(self).tracklist.scroll.pos < old(self).tracklist.library@.len(),
        ensures
            final(self).player_controls == old(self).player_controls,
            final(self).current_track == old(self).current_track,
            final(self).focus == old(self).focus,
            final(self).config == old(self).config,
            final(self).tracklist.library == old(self).tracklist.library,
            final(self).tracklist.key_config == old(self).tracklist.key_config,
            final(self).tracklist.scroll.y_offset == old(self).tracklist.scroll.y_offset,
            answer.0 == if key == old(self).tracklist.key_config.scroll_up || key == old(self).tracklist.key_config.scroll_down || key == old(self).tracklist.key_config.play_audio {
                EventState::Consumed
            } else {
                EventState::NotConsumed
            },
            answer.1 == if key != old(self).tracklist.key_config.scroll_up && key != old(self).tracklist.key_config.scroll_down && key == old(self).tracklist.key_config.play_audio {
                Some(
                    ComponentCommand::TracklistComponent(
                        crate::components::tracklist::Command::SetCurrentTrack {
                            path: old(self).tracklist.library@[old(self).tracklist.scroll.pos as int].path,
                        },
                    ),
                )
            } else {
                None
            },
            final(self).tracklist.scroll.pos == if key == old(self).tracklist.key_config.scroll_up {
                if old(self).tracklist.scroll.pos > 0 {
                    old(self).tracklist.scroll.pos - 1
                } else {
                    0
                }
            } else if key == old(self).tracklist.key_config.scroll_down {
                if old(self).tracklist.scroll.pos + 1 < old(self).tracklist.library@.len() {
                    old(self).tracklist.scroll.pos + 1
                } else {
                    old(self).tracklist.scroll.pos as int
                }
            } else {
                old(self).tracklist.scroll.pos as int
            },
    {
        self.tracklist.event(key)
    }

    /// What the session asks of the audio thread on every tick: its state.
    pub fn tick(&self) -> (command: Command)
        ensures
            command == Command::SendState,
    {
        Command::SendState
    }

    /// Takes in what the audio thread tells. At the end of the track
    /// nothing is playing any more. A report of the sink sets the progress, in
    /// percent of the length of the current track; without a current track
    /// the progress is zero.
    pub fn audio(&mut self, audio_message: AudioMessage)
        ensures
            final(self).tracklist == old(self).tracklist,
            final(self).focus == old(self).focus,
            final(self).config == old(self).config,
            match audio_message {
                AudioMessage::EndOfTrack => {
                    &&& final(self).player_controls.progress == 0
                    &&& final(self).player_controls.name is None
                    &&& final(self).current_track is None
                },
                AudioMessage::State(state) => {
                    &&& final(self).current_track == old(self).current_track
                    &&& final(self).player_controls.name == old(self).player_controls.name
                    &&& final(self).player_controls.progress == match old(self).current_track {
                        Some(current) => percent(state.pos_ms, current.total_duration_ms),
                        None => 0,
                    }
                },
                AudioMessage::Noop => {
                    &&& final(self).current_track == old(self).current_track
                    &&& final(self).player_controls == old(self).player_controls
                },
            },
    {
        match audio_message {
            AudioMessage::EndOfTrack => {
                self.player_controls.progress = 0;
                self.player_controls.name = None;
                self.current_track = None;
            },
            AudioMessage::State(state) => {
                let progress = match &self.current_track {
                    Some(current) => progress_percent(state.pos_ms, current.total_duration_ms),
                    None => 0,
                };
                self.player_controls.progress = progress;
            },
            AudioMessage::Noop => {},
        }
    }

    /// Makes the file at `path`, of the length given, the current track,
    /// shows its name and gives the command that plays it. The path must have
    /// a file name.
    pub fn set_current_track(&mut self, path: String, total_duration_ms: u64) -> (command: Command)
        requires
            file_stem_of(path@) is Some,
        ensures
            command == Command::Play(path),
            final(self).current_track == Some(CurrentTrack { path, total_duration_ms }),
            final(self).player_controls.progress == old(self).player_controls.progress,
            final(self).player_controls.name matches Some(name) && Some(name@) == file_stem_of(
                path@,
            ),
            final(self).tracklist == old(self).tracklist,
            final(self).focus == old(self).focus,
            final(self).config == old(self).config,
    {
        let current = CurrentTrack::new(path.clone(), total_duration_ms);
        self.player_controls.name = Some(current.name());
        self.current_track = Some(current);
        Command::Play(path)
    }

    /// The same where the path has a file name; else nothing changes and
    /// there is no command.
    pub fn try_set_current_track(&mut self, path: String, total_duration_ms: u64) -> (command:
        Option<Command>)
        ensures
            match command {
                Some(play) => {
                    &&& file_stem_of(path@) is Some
                    &&& play == Command::Play(path)
                    &&& final(self).current_track == Some(CurrentTrack { path, total_duration_ms })
                    &&& final(self).player_controls.progress == old(self).player_controls.progress
                    &&& final(self).player_controls.name matches Some(name) && Some(name@)
                        == file_stem_of(path@)
                    &&& final(self).tracklist == old(self).tracklist
                    &&& final(self).focus == old(self).focus
                    &&& final(self).config == old(self).config
                },
                None => file_stem_of(path@) is None && *final(self) == *old(self),
            },
    {
        match file_stem_of_path(&path) {
            Some(_) => Some(self.set_current_track(path, total_duration_ms)),
            None => None,
        }
    }
}

} // verus!

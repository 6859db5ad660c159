//! Playback queue engine, message dispatch core and audio coordinator
//! protocol of a terminal music player.
//!
//! The crate holds the rules of the player: which track comes next or
//! previous under the shuffle and repeat modes, how component messages are
//! batched, and how the audio thread reacts to commands. Terminal drawing,
//! audio output and persistence are left to the program built around it.

pub mod action;
pub mod clock;
pub mod components;
pub mod config;
pub mod current_track;
pub mod dispatch;
pub mod event;
pub mod input;
pub mod io;
pub mod layout;
pub mod model;
pub mod music;
pub mod paths;
pub mod playback;
pub mod queue;
pub mod screen;
pub mod session;
pub mod task;
pub mod widget;

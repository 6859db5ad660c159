//! The key-driven components: they answer keys directly and hand commands
//! to the session.

pub mod player_controls;
pub mod tracklist;
pub mod utils;

pub use player_controls::PlayerControlsComponent;
pub use tracklist::TracklistComponent;

use vstd::prelude::*;

verus! {

/// A command of one of the components to the session.
pub enum ComponentCommand {
    TracklistComponent(tracklist::Command),
}

} // verus!

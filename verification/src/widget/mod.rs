//! The widgets of the player screen. Each one turns input into messages of
//! its own and answers a message with an action.

pub mod control_bar;
pub mod cursor;
pub mod header;
pub mod player;
pub mod playlist;
pub mod popup;
pub mod tracklist;

pub use control_bar::ControlBar;
pub use cursor::Cursor;
pub use header::Header;
pub use playlist::Playlist;
pub use tracklist::Tracklist;

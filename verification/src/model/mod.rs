//! The values that travel through the player: tracks and playlists.

pub mod identity;
pub mod playlist;
pub mod track;

pub use playlist::Playlist;
pub use playlist::PlaylistMd;
pub use track::Track;

//! The screens of the player.

pub mod player;

pub use player::Player;

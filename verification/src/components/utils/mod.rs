//! Helpers that the components share.

pub mod vertical_scroll;

pub use vertical_scroll::VerticalScroll;

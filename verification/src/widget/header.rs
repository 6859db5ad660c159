//! The line at the top that names the playlist.

use crate::layout::Rect;
use vstd::prelude::*;

verus! {

/// The number of rows that the header takes.
pub const HEADER_HEIGHT: u16 = 2;

#[derive(Debug)]
pub struct Header {
    pub playlist_name: String,
    pub area: Rect,
}

impl Header {
    pub fn new(playlist_name: String, area: Rect) -> (header: Self)
        ensures
            header.playlist_name == playlist_name,
            header.area == area,
    {
        Header { playlist_name, area }
    }

    pub fn resize(&mut self, area: Rect)
        ensures
            final(self).area == area,
            final(self).playlist_name == old(self).playlist_name,
    {
        self.area = area;
    }
}

} // verus!

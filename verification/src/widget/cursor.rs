//! The row marker of a list.

use vstd::prelude::*;

verus! {

pub struct Cursor {
    /// The marked row, counted from the top of the list's area.
    pub y: u16,
}

impl Cursor {
    pub fn new() -> (cursor: Self)
        ensures
            cursor.y == 0,
    {
        Cursor { y: 0 }
    }
}

} // verus!

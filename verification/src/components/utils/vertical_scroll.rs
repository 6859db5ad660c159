//! Scrolling of a list that is longer than the screen.

use vstd::prelude::*;

verus! {

/// The selection in a list and the part of the list that is visible.
pub struct VerticalScroll {
    /// The number of rows scrolled out at the top.
    pub y_offset: usize,
    /// The selected row, counted from the start of the list.
    pub pos: usize,
    /// Whether the selection last moved down.
    pub going_down: bool,
}

/// The offset at which a list of `max_selection` rows is shown in
/// `visible_height` rows, when row `selection` is selected and the list is
/// scrolled by `y_offset`.
///
/// Moving down, the list scrolls as soon as the selection leaves the visible
/// part at the bottom, and only while rows are left below it: the selection
/// then becomes the last visible row. Moving up, the list scrolls by one row
/// when the selection leaves the visible part at the top.
pub open spec fn scroll_offset(
    y_offset: int,
    going_down: bool,
    visible_height: int,
    selection: int,
    max_selection: int,
) -> int {
    if visible_height == 0 {
        0
    } else if selection >= max_selection {
        max_selection
    } else if going_down {
        if selection >= visible_height + y_offset && max_selection > y_offset + visible_height {
            selection - visible_height + 1
        } else {
            y_offset
        }
    } else {
        if selection < y_offset {
            y_offset - 1
        } else {
            y_offset
        }
    }
}

impl VerticalScroll {
    pub fn new() -> (scroll: Self)
        ensures
            scroll.y_offset == 0,
            scroll.pos == 0,
            scroll.going_down,
    {
        VerticalScroll { y_offset: 0, pos: 0, going_down: true }
    }

    /// The selected row.
    pub fn pos(&self) -> (pos: usize)
        ensures
            pos == self.pos,
    {
        self.pos
    }

    /// Moves the selection up by one row, unless it is the first.
    pub fn move_up(&mut self)
        ensures
            final(self).pos == if old(self).pos > 0 {
                old(self).pos - 1
            } else {
                0
            },
            !final(self).going_down,
            final(self).y_offset == old(self).y_offset,
    {
        self.pos = self.pos.saturating_sub(1);
        self.going_down = false;
    }

    /// Moves the selection down by one row, unless it is the last of the
    /// `max_len` rows.
    pub fn move_down(&mut self, max_len: usize)
        ensures
            final(self).pos == if old(self).pos + 1 < max_len {
                old(self).pos + 1
            } else {
                old(self).pos as int
            },
            final(self).going_down,
            final(self).y_offset == old(self).y_offset,
    {
        if self.pos < max_len && self.pos + 1 < max_len {
            self.pos = self.pos + 1;
        }
        self.going_down = true;
    }

    /// Scrolls the list so that the selection is visible.
    pub fn update(&mut self, visible_height: usize, max_selection: usize)
        ensures
            final(self).y_offset == scroll_offset(
                old(self).y_offset as int,
                old(self).going_down,
                visible_height as int,
                old(self).pos as int,
                max_selection as int,
            ),
            final(self).pos == old(self).pos,
            final(self).going_down == old(self).going_down,
    {
        let new_y_offset = self.calc_scroll_offset(visible_height, self.pos, max_selection);
        self.y_offset = new_y_offset;
    }

    pub fn calc_scroll_offset(
        &self,
        visible_height: usize,
        selection: usize,
        max_selection: usize,
    ) -> (offset: usize)
        ensures
            offset == scroll_offset(
                self.y_offset as int,
                self.going_down,
                visible_height as int,
                selection as int,
                max_selection as int,
            ),
    {
        let y_offset = self.y_offset;
        if visible_height == 0 {
            return 0;
        }
        if selection >= max_selection {
            return max_selection;
        }
        if self.going_down {
            match visible_height.checked_add(y_offset) {
                Some(bottom) => {
                    if selection >= bottom && max_selection > bottom {
                        selection - visible_height + 1
                    } else {
                        y_offset
                    }
                },
                None => y_offset,
            }
        } else {
            if selection < y_offset {
                y_offset - 1
            } else {
                y_offset
            }
        }
    }
}

} // verus!

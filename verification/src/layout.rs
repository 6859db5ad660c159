//! Screen rectangles, as the widgets read them.

use vstd::prelude::*;

verus! {

/// A rectangle of terminal cells: its upper left corner and its size.
#[derive(Clone, Copy, Debug, PartialEq, Eq, Structural)]
pub struct Rect {
    pub x: u16,
    pub y: u16,
    pub width: u16,
    pub height: u16,
}

impl Rect {
    /// The empty rectangle at the origin.
    pub open spec fn zero() -> Rect {
        Rect { x: 0, y: 0, width: 0, height: 0 }
    }

    pub fn new(x: u16, y: u16, width: u16, height: u16) -> (rect: Rect)
        ensures
            rect == (Rect { x, y, width, height }),
    {
        Rect { x, y, width, height }
    }
}

impl Default for Rect {
    fn default() -> (rect: Rect)
        ensures
            rect == Rect::zero(),
    {
        Rect { x: 0, y: 0, width: 0, height: 0 }
    }
}

} // verus!

verus! {

/// Where a cursor and a scroll offset stand after a move up by `count` rows.
/// A move past the top row scrolls the list by what is left over and leaves
/// the cursor where it is.
pub open spec fn moved_up(cursor: u16, y_offset: u16, count: u16) -> (u16, u16) {
    if cursor < count {
        let rest = count - cursor;
        (
            cursor,
            if y_offset >= rest {
                (y_offset - rest) as u16
            } else {
                0
            },
        )
    } else {
        ((cursor - count) as u16, y_offset)
    }
}

/// Where a cursor and a scroll offset stand after a move down by `count`
/// rows in a list of `total` rows of which `height` are visible. Where the
/// move would leave the visible part or the list, the list scrolls by one row
/// instead, as long as rows are left below.
pub open spec fn moved_down(cursor: u16, y_offset: u16, count: u16, height: u16, total: nat) -> (
    u16,
    u16,
) {
    if cursor + count < height && y_offset + cursor + count < total {
        ((cursor + count) as u16, y_offset)
    } else if y_offset + height < total && y_offset < u16::MAX {
        (cursor, (y_offset + 1) as u16)
    } else {
        (cursor, y_offset)
    }
}

pub fn move_up(cursor: u16, y_offset: u16, count: u16) -> (place: (u16, u16))
    ensures
        place == moved_up(cursor, y_offset, count),
{
    if cursor < count {
        let rest = count - cursor;
        (cursor, y_offset.saturating_sub(rest))
    } else {
        (cursor - count, y_offset)
    }
}

pub fn move_down(cursor: u16, y_offset: u16, count: u16, height: u16, total: usize) -> (place: (
    u16,
    u16,
))
    ensures
        place == moved_down(cursor, y_offset, count, height, total as nat),
{
    let target: u64 = cursor as u64 + count as u64;
    if target < height as u64 && y_offset as u64 + target < total as u64 {
        (cursor + count, y_offset)
    } else if (y_offset as u64 + height as u64) < total as u64 && y_offset < u16::MAX {
        (cursor, y_offset + 1)
    } else {
        (cursor, y_offset)
    }
}

} // verus!

verus! {

/// The direction in which an area is divided.
#[derive(Clone, Copy, Debug, PartialEq, Eq, Structural)]
pub enum Direction {
    Horizontal,
    Vertical,
}

/// What one part of a divided area asks for.
#[derive(Clone, Copy, Debug, PartialEq, Eq, Structural)]
pub enum Constraint {
    /// Exactly this many cells.
    Length(u16),
    /// A share of what is left, in proportion to the number.
    Fill(u16),
}

/// Whether `part` runs across the whole of `area` at a right angle to the
/// direction of the division.
pub open spec fn spans(part: Rect, area: Rect, direction: Direction) -> bool {
    match direction {
        Direction::Horizontal => part.y == area.y && part.height == area.height,
        Direction::Vertical => part.x == area.x && part.width == area.width,
    }
}

/// Whether `part` lies inside `area`.
pub open spec fn inside(part: Rect, area: Rect) -> bool {
    &&& area.x <= part.x
    &&& part.x + part.width <= area.x + area.width
    &&& area.y <= part.y
    &&& part.y + part.height <= area.y + area.height
}

/// Divides `area` with `ratatui::layout::Layout`: builds the layout with
/// `Layout::new` from the direction and the constraints and calls
/// `Layout::split` on the area. The parts come in the order of the
/// constraints, one for each, and each part runs across the whole area at a
/// right angle to the direction. Every part lies inside the area: the layout
/// requires of its solver that both ends of every part lie between the ends
/// of the area, the start not behind the end. Where between them a part
/// starts and how long it is comes from the solver; nothing more is claimed
/// of it.
#[verifier::external_body]
pub(crate) fn split(area: Rect, direction: Direction, constraints: &Vec<Constraint>) -> (parts: Vec<
    Rect,
>)
    ensures
        parts@.len() == constraints@.len(),
        forall|i: int| 0 <= i < parts@.len() ==> spans(#[trigger] parts@[i], area, direction),
        forall|i: int| 0 <= i < parts@.len() ==> inside(#[trigger] parts@[i], area),
{
    let direction = match direction {
        Direction::Horizontal => ratatui::layout::Direction::Horizontal,
        Direction::Vertical => ratatui::layout::Direction::Vertical,
    };
    let constraints = constraints.iter().map(|c| match c {
        Constraint::Length(n) => ratatui::layout::Constraint::Length(*n),
        Constraint::Fill(n) => ratatui::layout::Constraint::Fill(*n),
    });
    let area = ratatui::layout::Rect { x: area.x, y: area.y, width: area.width, height: area.height };
    let parts = ratatui::layout::Layout::new(direction, constraints).split(area);
    parts.iter().map(|r| Rect { x: r.x, y: r.y, width: r.width, height: r.height }).collect()
}

/// The rows of `area` for the constraints given, one row for each: every
/// row is as wide as the area and lies inside it.
pub fn rows(area: Rect, constraints: &Vec<Constraint>) -> (parts: Vec<Rect>)
    ensures
        parts@.len() == constraints@.len(),
        forall|i: int|
            0 <= i < parts@.len() ==> (#[trigger] parts@[i]).x == area.x && parts@[i].width
                == area.width,
        forall|i: int| 0 <= i < parts@.len() ==> inside(#[trigger] parts@[i], area),
{
    split(area, Direction::Vertical, constraints)
}

/// The columns of `area` for the constraints given, one column for each:
/// every column is as high as the area and lies inside it.
pub fn columns(area: Rect, constraints: &Vec<Constraint>) -> (parts: Vec<Rect>)
    ensures
        parts@.len() == constraints@.len(),
        forall|i: int|
            0 <= i < parts@.len() ==> (#[trigger] parts@[i]).y == area.y && parts@[i].height
                == area.height,
        forall|i: int| 0 <= i < parts@.len() ==> inside(#[trigger] parts@[i], area),
{
    split(area, Direction::Horizontal, constraints)
}

} // verus!

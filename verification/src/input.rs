//! Keys and mouse events as the widgets read them.

use vstd::prelude::*;

verus! {

/// The key of a key press.
#[derive(Clone, Copy, Debug, PartialEq, Eq, Structural)]
pub enum KeyCode {
    Backspace,
    Enter,
    Left,
    Right,
    Up,
    Down,
    Home,
    End,
    PageUp,
    PageDown,
    Tab,
    Delete,
    Insert,
    /// A function key, by its number.
    F(u8),
    /// A character key.
    Char(char),
    Esc,
    /// Any key that the player has no use for.
    Other,
}

/// The modifier keys held during a key press, one bit each.
#[derive(Clone, Copy, Debug, PartialEq, Eq, Structural)]
pub struct KeyModifiers {
    pub bits: u8,
}

/// No modifier.
pub const MOD_NONE: u8 = 0;

/// The shift key.
pub const MOD_SHIFT: u8 = 1;

/// The control key.
pub const MOD_CONTROL: u8 = 2;

/// The alt key.
pub const MOD_ALT: u8 = 4;

impl KeyModifiers {
    pub fn none() -> (mods: KeyModifiers)
        ensures
            mods.bits == MOD_NONE,
    {
        KeyModifiers { bits: MOD_NONE }
    }

    pub fn new(bits: u8) -> (mods: KeyModifiers)
        ensures
            mods.bits == bits,
    {
        KeyModifiers { bits }
    }
}

/// A key press.
#[derive(Clone, Copy, Debug, PartialEq, Eq, Structural)]
pub struct KeyEvent {
    pub code: KeyCode,
    pub modifiers: KeyModifiers,
}

/// What the mouse did.
#[derive(Clone, Copy, Debug, PartialEq, Eq, Structural)]
pub enum MouseEventKind {
    /// A button went down.
    Down,
    /// A button went up.
    Up,
    /// The mouse moved with a button held.
    Drag,
    /// The mouse moved.
    Moved,
    ScrollDown,
    ScrollUp,
    ScrollLeft,
    ScrollRight,
}

/// A mouse event with the cell it happened in.
#[derive(Clone, Copy, Debug, PartialEq, Eq, Structural)]
pub struct MouseEvent {
    pub kind: MouseEventKind,
    pub column: u16,
    pub row: u16,
}

} // verus!

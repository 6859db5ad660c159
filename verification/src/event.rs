//! Keys as the key bindings name them, and what a component says of an event.

use crate::input::KeyCode;
use crate::input::KeyEvent;
use crate::input::MOD_ALT;
use crate::input::MOD_CONTROL;
use vstd::prelude::*;
use vstd::std_specs::convert::FromSpecImpl;

verus! {

/// Whether a component made use of an event.
#[derive(PartialEq, Eq, Debug, Clone, Copy, Structural)]
pub enum EventState {
    Consumed,
    NotConsumed,
}

impl EventState {
    pub fn is_consumed(&self) -> (consumed: bool)
        ensures
            consumed == (*self == EventState::Consumed),
    {
        *self == EventState::Consumed
    }
}

impl From<bool> for EventState {
    fn from(consumed: bool) -> (state: Self) {
        if consumed {
            EventState::Consumed
        } else {
            EventState::NotConsumed
        }
    }
}

impl FromSpecImpl<bool> for EventState {
    open spec fn obeys_from_spec() -> bool {
        true
    }

    open spec fn from_spec(consumed: bool) -> Self {
        if consumed {
            EventState::Consumed
        } else {
            EventState::NotConsumed
        }
    }
}

/// A key with the one modifier that the key bindings tell apart.
#[derive(PartialEq, Eq, Debug, Clone, Copy, Structural)]
pub enum Key {
    Enter,
    Tab,
    Backspace,
    Esc,
    Left,
    Right,
    Up,
    Down,
    Insert,
    Delete,
    Home,
    End,
    PageUp,
    PageDown,
    F0,
    F1,
    F2,
    F3,
    F4,
    F5,
    F6,
    F7,
    F8,
    F9,
    F10,
    F11,
    F12,
    /// A character key, with any modifiers but control alone or alt alone.
    Char(char),
    /// A character key with control, and nothing else, held.
    Ctrl(char),
    /// A character key with alt, and nothing else, held.
    Alt(char),
    Unknown,
}

/// The function key with the given number, as far as the bindings know it.
pub open spec fn function_key(number: u8) -> Key {
    if number == 0 {
        Key::F0
    } else if number == 1 {
        Key::F1
    } else if number == 2 {
        Key::F2
    } else if number == 3 {
        Key::F3
    } else if number == 4 {
        Key::F4
    } else if number == 5 {
        Key::F5
    } else if number == 6 {
        Key::F6
    } else if number == 7 {
        Key::F7
    } else if number == 8 {
        Key::F8
    } else if number == 9 {
        Key::F9
    } else if number == 10 {
        Key::F10
    } else if number == 11 {
        Key::F11
    } else if number == 12 {
        Key::F12
    } else {
        Key::Unknown
    }
}

/// The key that a key press stands for.
pub open spec fn key_of(event: KeyEvent) -> Key {
    match event.code {
        KeyCode::Enter => Key::Enter,
        KeyCode::Tab => Key::Tab,
        KeyCode::Backspace => Key::Backspace,
        KeyCode::Esc => Key::Esc,
        KeyCode::Left => Key::Left,
        KeyCode::Right => Key::Right,
        KeyCode::Up => Key::Up,
        KeyCode::Down => Key::Down,
        KeyCode::Insert => Key::Insert,
        KeyCode::Delete => Key::Delete,
        KeyCode::Home => Key::Home,
        KeyCode::End => Key::End,
        KeyCode::PageUp => Key::PageUp,
        KeyCode::PageDown => Key::PageDown,
        KeyCode::F(number) => function_key(number),
        KeyCode::Char(c) => if event.modifiers.bits == MOD_CONTROL {
            Key::Ctrl(c)
        } else if event.modifiers.bits == MOD_ALT {
            Key::Alt(c)
        } else {
            Key::Char(c)
        },
        KeyCode::Other => Key::Unknown,
    }
}

impl From<KeyEvent> for Key {
    fn from(value: KeyEvent) -> (key: Self) {
        let mods = value.modifiers.bits;
        match value.code {
            KeyCode::Enter => Key::Enter,
            KeyCode::Tab => Key::Tab,
            KeyCode::Backspace => Key::Backspace,
            KeyCode::Esc => Key::Esc,
            KeyCode::Left => Key::Left,
            KeyCode::Right => Key::Right,
            KeyCode::Up => Key::Up,
            KeyCode::Down => Key::Down,
            KeyCode::Insert => Key::Insert,
            KeyCode::Delete => Key::Delete,
            KeyCode::Home => Key::Home,
            KeyCode::End => Key::End,
            KeyCode::PageUp => Key::PageUp,
            KeyCode::PageDown => Key::PageDown,
            KeyCode::F(number) => {
                if number == 0 {
                    Key::F0
                } else if number == 1 {
                    Key::F1
                } else if number == 2 {
                    Key::F2
                } else if number == 3 {
                    Key::F3
                } else if number == 4 {
                    Key::F4
                } else if number == 5 {
                    Key::F5
                } else if number == 6 {
                    Key::F6
                } else if number == 7 {
                    Key::F7
                } else if number == 8 {
                    Key::F8
                } else if number == 9 {
                    Key::F9
                } else if number == 10 {
                    Key::F10
                } else if number == 11 {
                    Key::F11
                } else if number == 12 {
                    Key::F12
                } else {
                    Key::Unknown
                }
            },
            KeyCode::Char(c) => {
                if mods == MOD_CONTROL {
                    Key::Ctrl(c)
                } else if mods == MOD_ALT {
                    Key::Alt(c)
                } else {
                    Key::Char(c)
                }
            },
            KeyCode::Other => Key::Unknown,
        }
    }
}

impl FromSpecImpl<KeyEvent> for Key {
    open spec fn obeys_from_spec() -> bool {
        true
    }

    open spec fn from_spec(value: KeyEvent) -> Self {
        key_of(value)
    }
}

/// What the sink reports of itself.
#[derive(Clone, Copy, Debug, PartialEq, Eq)]
pub struct SinkState {
    /// The length of the source that is loaded, in milliseconds, if known.
    pub total_duration_ms: Option<u64>,
    /// The position in the source, in milliseconds.
    pub pos_ms: u64,
    /// The volume, in thousandths of the full volume.
    pub volume: u16,
}

/// What the audio thread tells the session.
#[derive(Clone, Copy, Debug, PartialEq, Eq)]
pub enum AudioMessage {
    EndOfTrack,
    State(SinkState),
    Noop,
}

/// What wakes the session.
#[derive(Clone, Copy, Debug, PartialEq, Eq)]
pub enum Event {
    Tick,
    Input(Key),
    Audio(AudioMessage),
}

/// What the session asks of the audio thread.
#[derive(Debug)]
pub enum Command {
    /// Play the file at the path.
    Play(String),
    /// Report the position and the volume.
    SendState,
    Noop,
}

} // verus!

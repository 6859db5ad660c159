//! The one-line input box.

use crate::input::KeyCode;
use crate::input::KeyModifiers;
use crate::task::Task;
use vstd::prelude::*;

verus! {

pub struct Popup {
    /// What was typed so far.
    pub buffer: String,
}

#[derive(Clone, Copy, Debug, PartialEq, Eq, Structural)]
pub enum Message {
    /// A character was typed.
    Push(char),
    /// The last character is taken back.
    Pop,
}

/// `std::string::String::push` appends the character to the string.
pub assume_specification[ String::push ](s: &mut String, ch: char)
    ensures
        final(s)@ == old(s)@.push(ch),
;

/// `std::string::String::pop` removes the last character of the string and
/// returns it; on the empty string it returns nothing and changes nothing.
pub assume_specification[ String::pop ](s: &mut String) -> (last: Option<char>)
    ensures
        old(s)@.len() > 0 ==> last == Some(old(s)@.last()) && final(s)@ == old(s)@.drop_last(),
        old(s)@.len() == 0 ==> last is None && final(s)@ == old(s)@,
;

impl Popup {
    pub fn new() -> (popup: Self)
        ensures
            popup.buffer@.len() == 0,
    {
        Popup { buffer: String::new() }
    }

    /// The message that a key stands for: a character is typed, backspace
    /// takes one back, other keys mean nothing.
    pub fn handle_input(&self, code: KeyCode, _mods: KeyModifiers) -> (message: Option<Message>)
        ensures
            message == match code {
                KeyCode::Char(ch) => Some(Message::Push(ch)),
                KeyCode::Backspace => Some(Message::Pop),
                _ => None,
            },
    {
        match code {
            KeyCode::Char(ch) => Some(Message::Push(ch)),
            KeyCode::Backspace => Some(Message::Pop),
            _ => None,
        }
    }

    /// Applies a message to the buffer. There are no follow-up messages.
    pub fn update(&mut self, message: Message) -> (task: Task<Message>)
        ensures
            task@ is None,
            final(self).buffer@ == match message {
                Message::Push(ch) => old(self).buffer@.push(ch),
                Message::Pop => if old(self).buffer@.len() > 0 {
                    old(self).buffer@.drop_last()
                } else {
                    old(self).buffer@
                },
            },
    {
        match message {
            Message::Push(ch) => self.buffer.push(ch),
            Message::Pop => {
                self.buffer.pop();
            },
        }
        Task::none()
    }
}

impl Default for Popup {
    fn default() -> (popup: Self)
        ensures
            popup.buffer@.len() == 0,
    {
        Self::new()
    }
}

} // verus!

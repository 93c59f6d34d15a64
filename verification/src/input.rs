//! Key and mouse events, and what the dispatcher makes of each.

use vstd::prelude::*;

verus! {

/// A key, or a mouse action that stands for one.
#[derive(Clone, Copy, Debug, PartialEq, Eq, Structural)]
pub enum Key {
    /// A letter, digit or other printable key.
    Char(char),
    /// One of the function keys.
    F(u8),
    Backspace,
    Enter,
    Left,
    Right,
    Up,
    Down,
    Tab,
    Delete,
    Home,
    End,
    PageUp,
    PageDown,
    Esc,
    Copy,
    Cut,
    Paste,
    /// The mouse wheel, turned down.
    MouseScrollDown,
    /// The mouse wheel, turned up.
    MouseScrollUp,
    /// No key: a field ignores it.
    Null,
}

/// One event: a key with the modifiers held while it was pressed.
#[derive(Clone, Copy, Debug, PartialEq, Eq, Structural)]
pub struct Input {
    pub key: Key,
    pub ctrl: bool,
    pub alt: bool,
    pub shift: bool,
}

/// What the dispatcher does with an event.
#[derive(Clone, Copy, Debug, PartialEq, Eq, Structural)]
pub enum Command {
    /// Leave the event loop.
    Quit,
    /// Move the focus one field back.
    Retreat,
    /// Move the focus one field on.
    Advance,
    /// Swallow the event.
    Ignore,
    /// Hand the event to the active field.
    Edit,
}

impl Input {
    /// The command that an event stands for. Escape quits whatever is held
    /// with it; Tab moves the focus, back with Shift; Enter, Ctrl-M and Ctrl-J
    /// are swallowed, so that no field ever gets a second line from them;
    /// everything else is an edit.
    pub open spec fn command(self) -> Command {
        if self.key == Key::Esc {
            Command::Quit
        } else if self.key == Key::Tab {
            if self.shift {
                Command::Retreat
            } else {
                Command::Advance
            }
        } else if self.key == Key::Enter || (self.ctrl && (self.key == Key::Char('m') || self.key
            == Key::Char('j'))) {
            Command::Ignore
        } else {
            Command::Edit
        }
    }

    /// The character that the event types into a field: that of a character
    /// key, unless Ctrl or Alt is held with it.
    pub open spec fn typed_char(self) -> Option<char> {
        match self.key {
            Key::Char(c) if !self.ctrl && !self.alt => Some(c),
            _ => None,
        }
    }

    /// A key without modifiers.
    pub fn plain(key: Key) -> (input: Input)
        ensures
            input == (Input { key, ctrl: false, alt: false, shift: false }),
    {
        Input { key, ctrl: false, alt: false, shift: false }
    }

    /// Classifies the event.
    pub fn classify(&self) -> (command: Command)
        ensures
            command == self.command(),
    {
        match self.key {
            Key::Esc => Command::Quit,
            Key::Tab => if self.shift {
                Command::Retreat
            } else {
                Command::Advance
            },
            Key::Enter => Command::Ignore,
            Key::Char(c) => if self.ctrl && (c == 'm' || c == 'j') {
                Command::Ignore
            } else {
                Command::Edit
            },
            _ => Command::Edit,
        }
    }
}

} // verus!

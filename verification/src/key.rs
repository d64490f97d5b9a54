//! Key presses as the interaction model sees them.

use vstd::prelude::*;

verus! {

/// One key press, without modifiers.
#[derive(Debug, Clone, Copy, PartialEq, Eq, Structural)]
pub enum Key {
    Char(char),
    Enter,
    Esc,
    Tab,
    BackTab,
    Up,
    Down,
    Left,
    Right,
    Home,
    End,
    Backspace,
    Delete,
    Other,
}

impl Key {
    /// A printable character that is no line break: it is inserted into a
    /// line.
    pub open spec fn is_insertion(self) -> bool {
        match self {
            Key::Char(c) => c != '\n' && c != '\r',
            _ => false,
        }
    }

    /// The two keys that delete a character of a line.
    pub open spec fn is_deletion(self) -> bool {
        self == Key::Backspace || self == Key::Delete
    }

    /// The keys that move the cursor within a line.
    pub open spec fn is_motion(self) -> bool {
        self == Key::Left || self == Key::Right || self == Key::Home || self == Key::End
    }

    /// Keys that a single-line text buffer reacts to.
    pub open spec fn is_line_edit(self) -> bool {
        self.is_insertion() || self.is_deletion() || self.is_motion()
    }

    /// Whether a single-line text buffer reacts to the key.
    pub fn edits_line(self) -> (b: bool)
        ensures
            b == self.is_line_edit(),
    {
        match self {
            Key::Char(c) => c != '\n' && c != '\r',
            Key::Backspace | Key::Delete => true,
            Key::Left | Key::Right | Key::Home | Key::End => true,
            _ => false,
        }
    }
}

} // verus!

//! Keyboard input as the controls see it: one logical key per event, and
//! whether the key went down, repeated or came up.

use vstd::prelude::*;

verus! {

/// The logical key of an event.
#[derive(Clone, Copy, Debug, PartialEq, Eq, Structural)]
pub enum KeyCode {
    /// A printable character.
    Char(char),
    /// The erase key.
    Backspace,
    Left,
    Right,
    Up,
    Down,
    Tab,
    /// Shift and tab.
    BackTab,
    Esc,
    Enter,
    /// Any key that no control has a use for, such as a modifier alone.
    Other,
}

/// Whether a key went down, is held, or came up.
#[derive(Clone, Copy, Debug, PartialEq, Eq, Structural)]
pub enum KeyEventKind {
    Press,
    Repeat,
    Release,
}

/// One keyboard event.
#[derive(Clone, Copy, Debug, PartialEq, Eq, Structural)]
pub struct KeyEvent {
    pub code: KeyCode,
    pub kind: KeyEventKind,
}

impl KeyCode {
    /// The keys that ask a composite to move focus to its next slot.
    pub open spec fn advances(self) -> bool {
        self == KeyCode::Tab || self == KeyCode::Down
    }

    /// The keys that ask a composite to move focus to its previous slot.
    pub open spec fn retreats(self) -> bool {
        self == KeyCode::BackTab || self == KeyCode::Up
    }

    /// The keys that some control acts on: the editing keys of a text field,
    /// the two cycling keys of a select field, and the focus keys of a
    /// composite.
    pub open spec fn has_handler(self) -> bool {
        self is Char || self == KeyCode::Backspace || self == KeyCode::Left || self
            == KeyCode::Right || self.advances() || self.retreats()
    }

    pub fn is_advance(self) -> (r: bool)
        ensures
            r == self.advances(),
    {
        match self {
            KeyCode::Tab => true,
            KeyCode::Down => true,
            _ => false,
        }
    }

    pub fn is_retreat(self) -> (r: bool)
        ensures
            r == self.retreats(),
    {
        match self {
            KeyCode::BackTab => true,
            KeyCode::Up => true,
            _ => false,
        }
    }
}

impl KeyEvent {
    /// The event of `code` going down.
    pub fn press(code: KeyCode) -> (event: KeyEvent)
        ensures
            event == (KeyEvent { code, kind: KeyEventKind::Press }),
    {
        KeyEvent { code, kind: KeyEventKind::Press }
    }

    /// An event of the given kind.
    pub fn new(code: KeyCode, kind: KeyEventKind) -> (event: KeyEvent)
        ensures
            event == (KeyEvent { code, kind }),
    {
        KeyEvent { code, kind }
    }

    pub fn is_press(&self) -> (r: bool)
        ensures
            r == (self.kind == KeyEventKind::Press),
    {
        match self.kind {
            KeyEventKind::Press => true,
            _ => false,
        }
    }
}

} // verus!

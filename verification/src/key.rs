//! Key presses as the pages receive them.

use vstd::prelude::*;

verus! {

/// The key that an event is about. Keys that no page reacts to are `Other`.
#[derive(Clone, Copy, Debug, PartialEq, Eq, Structural)]
pub enum KeyCode {
    Char(char),
    Enter,
    Backspace,
    Left,
    Right,
    Esc,
    Other,
}

/// Whether the key went down, is held, or went up.
#[derive(Clone, Copy, Debug, PartialEq, Eq, Structural)]
pub enum KeyEventKind {
    Press,
    Repeat,
    Release,
}

/// One event of the keyboard.
#[derive(Clone, Copy, Debug, PartialEq, Eq, Structural)]
pub struct KeyEvent {
    pub code: KeyCode,
    /// The control key was held.
    pub control: bool,
    pub kind: KeyEventKind,
}

impl KeyEvent {
    /// A press of `code` with no modifier held.
    pub fn new(code: KeyCode) -> (key: KeyEvent)
        ensures
            key == (KeyEvent { code, control: false, kind: KeyEventKind::Press }),
    {
        KeyEvent { code, control: false, kind: KeyEventKind::Press }
    }

    /// A press of `code` with the control key held.
    pub fn with_control(code: KeyCode) -> (key: KeyEvent)
        ensures
            key == (KeyEvent { code, control: true, kind: KeyEventKind::Press }),
    {
        KeyEvent { code, control: true, kind: KeyEventKind::Press }
    }

    /// Whether the event is about the character `c`.
    pub open spec fn is_char(self, c: char) -> bool {
        self.code == KeyCode::Char(c)
    }

    /// Whether the event asks to leave the application: `q`, or `c` with the
    /// control key held.
    pub open spec fn is_quit(self) -> bool {
        self.is_char('q') || (self.is_char('c') && self.control)
    }
}

} // verus!

//! Key events as the dialog reads them: which key, and whether it was
//! pressed, held or released.

use vstd::prelude::*;

verus! {

/// The keys that the dialog tells apart. Every key that it has no rule for is
/// `Other`.
#[derive(Debug, Clone, Copy, PartialEq, Eq, Structural)]
pub enum KeyCode {
    Esc,
    Enter,
    Left,
    Right,
    Char(char),
    Other,
}

/// What happened to the key.
#[derive(Debug, Clone, Copy, PartialEq, Eq, Structural)]
pub enum KeyEventKind {
    Press,
    Repeat,
    Release,
}

/// One event of the keyboard.
#[derive(Debug, Clone, Copy, PartialEq, Eq, Structural)]
pub struct KeyEvent {
    pub code: KeyCode,
    pub kind: KeyEventKind,
}

impl KeyEvent {
    /// The press of a key.
    pub fn new(code: KeyCode) -> (event: KeyEvent)
        ensures
            event == press(code),
    {
        KeyEvent { code, kind: KeyEventKind::Press }
    }
}

/// The press of the key `code`.
pub open spec fn press(code: KeyCode) -> KeyEvent {
    KeyEvent { code, kind: KeyEventKind::Press }
}

} // verus!

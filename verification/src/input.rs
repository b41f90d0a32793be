//! Keyboard and mouse input as the panels see it.
use vstd::prelude::*;

verus! {

/// A key as the panels distinguish it.
#[derive(Debug, Clone, Copy, PartialEq, Eq, Structural)]
pub enum KeyCode {
    Up,
    Down,
    Left,
    Right,
    PageUp,
    PageDown,
    Enter,
    Esc,
    Backspace,
    Tab,
    Char(char),
    /// Any key that no panel reacts to.
    Other,
}

/// A key press together with the modifier state the panels read.
#[derive(Debug, Clone, Copy, PartialEq, Eq, Structural)]
pub struct KeyEvent {
    pub code: KeyCode,
    /// Whether Control was held.
    pub ctrl: bool,
    /// Whether this is a press (as opposed to a release or repeat).
    pub press: bool,
}

impl KeyEvent {
    /// A plain press of `code` without modifiers.
    pub fn new(code: KeyCode) -> (k: KeyEvent)
        ensures
            k.code == code,
            !k.ctrl,
            k.press,
    {
        KeyEvent { code, ctrl: false, press: true }
    }

    /// A press of `code` with Control held.
    pub fn with_ctrl(code: KeyCode) -> (k: KeyEvent)
        ensures
            k.code == code,
            k.ctrl,
            k.press,
    {
        KeyEvent { code, ctrl: true, press: true }
    }
}

/// The kind of a mouse event, as far as list panels react to it.
#[derive(Debug, Clone, Copy, PartialEq, Eq, Structural)]
pub enum MouseEventKind {
    ScrollUp,
    ScrollDown,
    /// Clicks, drags, moves: ignored by the list panels.
    Other,
}

} // verus!

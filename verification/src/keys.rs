//! Key presses, as far as the browser tells them apart.

use vstd::prelude::*;

verus! {

/// The key that was pressed.
#[derive(Clone, Copy, Debug, PartialEq, Eq)]
pub enum KeyCode {
    Esc,
    Enter,
    Up,
    Down,
    Left,
    Right,
    PageUp,
    PageDown,
    /// A function key, by its number.
    F(u8),
    /// A character key.
    Char(char),
    /// Any other key.
    Other,
}

/// A key press: the key, and whether Control was held.
#[derive(Clone, Copy, Debug, PartialEq, Eq)]
pub struct KeyEvent {
    pub code: KeyCode,
    pub ctrl: bool,
}

impl KeyEvent {
    /// Whether this is the character `c` with Control held.
    pub open spec fn is_ctrl(self, c: char) -> bool {
        self.ctrl && self.code == KeyCode::Char(c)
    }

    /// Whether this key ends the program: Escape, or Control with `q`.
    pub open spec fn is_quit(self) -> bool {
        self.code == KeyCode::Esc || self.is_ctrl('q')
    }

    /// Whether this key moves the focus: F2.
    pub open spec fn is_focus_toggle(self) -> bool {
        self.code == KeyCode::F(2)
    }

    /// Tells whether this is the character `c` with Control held.
    pub fn ctrl_char(&self, c: char) -> (hit: bool)
        ensures
            hit == self.is_ctrl(c),
    {
        match self.code {
            KeyCode::Char(pressed) => self.ctrl && pressed == c,
            _ => false,
        }
    }

    /// Tells whether this key ends the program.
    pub fn quits(&self) -> (hit: bool)
        ensures
            hit == self.is_quit(),
    {
        match self.code {
            KeyCode::Esc => true,
            _ => self.ctrl_char('q'),
        }
    }

    /// Tells whether this key moves the focus.
    pub fn toggles_focus(&self) -> (hit: bool)
        ensures
            hit == self.is_focus_toggle(),
    {
        match self.code {
            KeyCode::F(number) => number == 2,
            _ => false,
        }
    }
}

} // verus!

//! Keyboard input as the library sees it: the key pressed and the modifier
//! keys held.  The terminal front end translates its events into these.

use vstd::prelude::*;

verus! {

/// A key of the keyboard.  `Other` stands for every key the library does
/// not react to.
#[derive(Debug, Clone, Copy, PartialEq, Eq, Structural)]
pub enum KeyCode {
    Backspace,
    Enter,
    Left,
    Right,
    Up,
    Down,
    Home,
    End,
    PageUp,
    PageDown,
    Tab,
    BackTab,
    Delete,
    Insert,
    F(u8),
    Char(char),
    Null,
    Esc,
    Other,
}

/// The set of modifier keys held, as bits: shift 1, control 2, alt 4,
/// super 8, hyper 16, meta 32.
#[derive(Debug, Clone, Copy, PartialEq, Eq, Structural)]
pub struct KeyModifiers {
    pub bits: u8,
}

impl KeyModifiers {
    pub fn none() -> (r: KeyModifiers)
        ensures
            r.bits == 0,
    {
        KeyModifiers { bits: 0 }
    }

    pub fn shift() -> (r: KeyModifiers)
        ensures
            r.bits == 1,
    {
        KeyModifiers { bits: 1 }
    }

    pub fn control() -> (r: KeyModifiers)
        ensures
            r.bits == 2,
    {
        KeyModifiers { bits: 2 }
    }

    pub fn alt() -> (r: KeyModifiers)
        ensures
            r.bits == 4,
    {
        KeyModifiers { bits: 4 }
    }

    /// These modifiers without shift.
    pub open spec fn without_shift_bits(self) -> u8 {
        self.bits & 0xfe
    }

    pub fn without_shift(self) -> (r: KeyModifiers)
        ensures
            r.bits == self.without_shift_bits(),
    {
        KeyModifiers { bits: self.bits & 0xfe }
    }
}

} // verus!

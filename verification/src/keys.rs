//! Key presses as the file manager sees them: a key and the modifier keys
//! held with it.
use vstd::prelude::*;

verus! {

/// A key.
#[derive(Debug, PartialEq, Eq, Structural, Clone, Copy)]
pub enum KeyCode {
    Backspace,
    Enter,
    Left,
    Right,
    Up,
    Down,
    Home,
    End,
    PageUp,
    PageDown,
    Tab,
    BackTab,
    Delete,
    Insert,
    /// A function key, F1 to F24.
    F(u8),
    Char(char),
    Null,
    Esc,
    /// Any other key (lock keys, media keys, lone modifier keys, ...).
    Other,
}

/// The modifier keys held, as a bit set: shift 1, control 2, alt 4,
/// super 8, hyper 16, meta 32.
#[derive(Debug, PartialEq, Eq, Structural, Clone, Copy)]
pub struct KeyModifiers {
    pub bits: u8,
}

impl KeyModifiers {
    pub fn none() -> (r: Self)
        ensures
            r.bits == 0,
    {
        KeyModifiers { bits: 0 }
    }

    pub fn shift() -> (r: Self)
        ensures
            r.bits == 1,
    {
        KeyModifiers { bits: 1 }
    }

    pub fn control() -> (r: Self)
        ensures
            r.bits == 2,
    {
        KeyModifiers { bits: 2 }
    }

    pub fn alt() -> (r: Self)
        ensures
            r.bits == 4,
    {
        KeyModifiers { bits: 4 }
    }

    /// Control and nothing else.
    pub open spec fn is_control_only(self) -> bool {
        self.bits == 2
    }

    /// Control, with or without other modifiers.
    pub open spec fn has_control(self) -> bool {
        self.bits & 2 == 2
    }

    /// Whether every modifier of `other` is held.
    pub fn contains(&self, other: KeyModifiers) -> (r: bool)
        ensures
            r == (self.bits & other.bits == other.bits),
    {
        self.bits & other.bits == other.bits
    }
}

/// A key press.
#[derive(Debug, PartialEq, Eq, Structural, Clone, Copy)]
pub struct KeyEvent {
    pub code: KeyCode,
    pub modifiers: KeyModifiers,
}

impl KeyEvent {
    pub fn new(code: KeyCode, modifiers: KeyModifiers) -> (r: Self)
        ensures
            r.code == code,
            r.modifiers == modifiers,
    {
        KeyEvent { code, modifiers }
    }

    /// A press of `code` with no modifier.
    pub fn plain(code: KeyCode) -> (r: Self)
        ensures
            r.code == code,
            r.modifiers.bits == 0,
    {
        KeyEvent { code, modifiers: KeyModifiers::none() }
    }

    /// A press of `code` with control held.
    pub fn ctrl(code: KeyCode) -> (r: Self)
        ensures
            r.code == code,
            r.modifiers.bits == 2,
    {
        KeyEvent { code, modifiers: KeyModifiers::control() }
    }
}

} // verus!

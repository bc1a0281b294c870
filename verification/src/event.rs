//! Key events as the host reads them from its input facility.

use vstd::prelude::*;

verus! {

/// Which key an event is about.
#[derive(Clone, Copy, Debug, PartialEq, Eq, Structural)]
pub enum KeyCode {
    Backspace,
    Enter,
    /// A key that types the given character.
    Char(char),
    /// Any key that the shell does not act on.
    Other,
}

/// What happened to the key.
#[derive(Clone, Copy, Debug, PartialEq, Eq, Structural)]
pub enum KeyEventKind {
    Press,
    Repeat,
    Release,
}

/// The modifier keys that were held when the event occurred.
#[derive(Clone, Copy, Debug, PartialEq, Eq, Structural)]
pub struct KeyModifiers {
    pub shift: bool,
    pub control: bool,
    pub alt: bool,
    pub super_key: bool,
    pub hyper: bool,
    pub meta: bool,
}

/// One event of the keyboard.
#[derive(Clone, Copy, Debug, PartialEq, Eq, Structural)]
pub struct KeyEvent {
    pub code: KeyCode,
    pub modifiers: KeyModifiers,
    pub kind: KeyEventKind,
}

/// What one poll of the event source gave.
#[derive(Clone, Debug, PartialEq, Eq)]
pub enum Polled {
    /// A key event.
    Key(KeyEvent),
    /// An event that is not of the keyboard.
    Other,
    /// The source failed on this event; the text describes the failure.
    Failed(String),
    /// The source is exhausted.
    Closed,
}

impl KeyModifiers {
    /// Control is held and no other modifier is.
    pub open spec fn is_control(self) -> bool {
        self.control && !self.shift && !self.alt && !self.super_key && !self.hyper && !self.meta
    }

    /// Control is held and no other modifier is.
    pub fn only_control(self) -> (r: bool)
        ensures
            r == self.is_control(),
    {
        self.control && !self.shift && !self.alt && !self.super_key && !self.hyper && !self.meta
    }
}

impl KeyEvent {
    /// The interrupt combination: a press of `c` with Control alone.
    pub open spec fn interrupts(self) -> bool {
        &&& self.kind == KeyEventKind::Press
        &&& self.modifiers.is_control()
        &&& self.code == KeyCode::Char('c')
    }

    /// A press of the key that types `c`, other than the interrupt
    /// combination.
    pub open spec fn types(self, c: char) -> bool {
        &&& self.kind == KeyEventKind::Press
        &&& self.code == KeyCode::Char(c)
        &&& !self.interrupts()
    }

    /// Whether the event is the interrupt combination, on which the host
    /// restores the terminal and ends the process.
    pub fn is_interrupt(&self) -> (r: bool)
        ensures
            r == self.interrupts(),
    {
        self.kind == KeyEventKind::Press && self.modifiers.only_control() && self.code
            == KeyCode::Char('c')
    }
}

} // verus!

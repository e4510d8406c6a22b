//! Keyboard events as the list and the editor see them: a key code and the
//! modifier keys held with it.

use vstd::prelude::*;

verus! {

/// Which key was pressed. Keys that neither the list nor the editor reacts to
/// are all `Other`.
#[derive(Clone, Copy, Debug, PartialEq, Eq, Structural)]
pub enum KeyCode {
    Char(char),
    Enter,
    Esc,
    Tab,
    Backspace,
    Delete,
    Left,
    Right,
    Up,
    Down,
    Other,
}

/// The modifier keys held during a key press. `other` stands for any modifier
/// besides Shift, Control and Alt.
#[derive(Clone, Copy, Debug, PartialEq, Eq, Structural)]
pub struct Modifiers {
    pub shift: bool,
    pub control: bool,
    pub alt: bool,
    pub other: bool,
}

/// One key press.
#[derive(Clone, Copy, Debug, PartialEq, Eq, Structural)]
pub struct Key {
    pub code: KeyCode,
    pub modifiers: Modifiers,
}

impl Modifiers {
    /// Control is held and nothing else is.
    pub open spec fn only_control(self) -> bool {
        self.control && !self.shift && !self.alt && !self.other
    }

    /// No modifier at all.
    pub fn none() -> (m: Modifiers)
        ensures
            m == (Modifiers { shift: false, control: false, alt: false, other: false }),
    {
        Modifiers { shift: false, control: false, alt: false, other: false }
    }

    /// Control alone.
    pub fn control() -> (m: Modifiers)
        ensures
            m == (Modifiers { shift: false, control: true, alt: false, other: false }),
            m.only_control(),
    {
        Modifiers { shift: false, control: true, alt: false, other: false }
    }

    /// Whether Control is held and nothing else is.
    pub fn is_only_control(&self) -> (b: bool)
        ensures
            b == self.only_control(),
    {
        self.control && !self.shift && !self.alt && !self.other
    }
}

impl Key {
    /// The key `code` pressed with no modifier.
    pub fn plain(code: KeyCode) -> (key: Key)
        ensures
            key == (Key { code, modifiers: Modifiers { shift: false, control: false, alt: false, other: false } }),
    {
        Key { code, modifiers: Modifiers::none() }
    }

    /// The key `code` pressed with Control alone.
    pub fn ctrl(code: KeyCode) -> (key: Key)
        ensures
            key == (Key { code, modifiers: Modifiers { shift: false, control: true, alt: false, other: false } }),
    {
        Key { code, modifiers: Modifiers::control() }
    }
}

} // verus!

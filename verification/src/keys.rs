//! Key presses as the engine sees them.

use vstd::prelude::*;

verus! {

/// The keys that the engine or the text editor of an input popup tells
/// apart. Every other key is `Other`.
#[derive(Clone, Copy, PartialEq, Eq, Debug, Structural)]
pub enum KeyCode {
    Up,
    Down,
    Left,
    Right,
    Enter,
    Esc,
    Backspace,
    Delete,
    Home,
    End,
    Char(char),
    Other,
}

/// No modifier key is held.
pub const NO_MODIFIERS: u8 = 0;

/// The shift key is held.
pub const SHIFT: u8 = 1;

/// The control key is held.
pub const CONTROL: u8 = 2;

/// The alt key is held.
pub const ALT: u8 = 4;

/// The super key is held.
pub const SUPER: u8 = 8;

/// The hyper key is held.
pub const HYPER: u8 = 16;

/// The meta key is held.
pub const META: u8 = 32;

/// One key press: the key and the modifier keys held with it, one bit for
/// each of shift, control, alt, super, hyper and meta, from the lowest bit
/// up.
#[derive(Clone, Copy, PartialEq, Eq, Debug, Structural)]
pub struct Key {
    pub code: KeyCode,
    pub modifiers: u8,
}

impl Key {
    /// The press of `code` alone.
    pub fn plain(code: KeyCode) -> (key: Key)
        ensures
            key == (Key { code, modifiers: NO_MODIFIERS }),
    {
        Key { code, modifiers: NO_MODIFIERS }
    }

    /// The press of a character key alone.
    pub fn char(c: char) -> (key: Key)
        ensures
            key == (Key { code: KeyCode::Char(c), modifiers: NO_MODIFIERS }),
    {
        Key { code: KeyCode::Char(c), modifiers: NO_MODIFIERS }
    }

    /// A character typed as text: a character key alone or with shift.
    pub open spec fn types_char(self) -> bool {
        self.code is Char && (self.modifiers == NO_MODIFIERS || self.modifiers == SHIFT)
    }

    /// A key that no text editor reacts to, whatever is held with it.
    pub open spec fn is_inert(self) -> bool {
        self.code is Up || self.code is Down || self.code is Enter || self.code is Esc
            || self.code is Other
    }
}

} // verus!

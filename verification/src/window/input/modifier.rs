//! Modifier keys.

use vstd::prelude::*;

verus! {

/// A modifier key.
#[derive(Debug, Copy, Clone, Eq, PartialEq, Structural, Hash)]
pub enum Modifiers {
    Shift,
    Ctrl,
    Alt,
    Windows,
}

impl Modifiers {
    /// The modifier's bit in a set of modifiers: shift, ctrl, alt and windows
    /// are the bits 0 to 3.
    pub fn bits(self) -> (bits: u8)
        ensures
            bits == (match self {
                Modifiers::Shift => 1u8,
                Modifiers::Ctrl => 2u8,
                Modifiers::Alt => 4u8,
                Modifiers::Windows => 8u8,
            }),
    {
        match self {
            Modifiers::Shift => 0b00000001,
            Modifiers::Ctrl => 0b00000010,
            Modifiers::Alt => 0b00000100,
            Modifiers::Windows => 0b00001000,
        }
    }
}

} // verus!

//! The states of keys and buttons.

use vstd::prelude::*;

use crate::utilities::is_flag_set;

verus! {

/// The state of a mouse button or of a modifier.
#[derive(Debug, Default, Copy, Clone, Eq, PartialEq, Structural, Hash)]
pub enum ButtonState {
    #[default]
    Released,
    Pressed,
}

/// The state that a set of raw-input flags gives a button: pressed where its
/// down flag is set, else released where its up flag is set, else no change.
pub open spec fn spec_state_from_flag(flags: u16, down_flag: u32, up_flag: u32) -> Option<
    ButtonState,
> {
    if (flags as u32) & down_flag == down_flag {
        Some(ButtonState::Pressed)
    } else if (flags as u32) & up_flag == up_flag {
        Some(ButtonState::Released)
    } else {
        None
    }
}

impl ButtonState {
    pub fn is_pressed(self) -> (pressed: bool)
        ensures
            pressed == (self == ButtonState::Pressed),
    {
        self == ButtonState::Pressed
    }

    /// The state that `flags` gives a button whose flags are `down_flag` and
    /// `up_flag` (see [`spec_state_from_flag`]).
    pub fn from_flag(flags: u16, down_flag: u32, up_flag: u32) -> (state: Option<Self>)
        ensures
            state == spec_state_from_flag(flags, down_flag, up_flag),
    {
        if is_flag_set(flags as u32, down_flag) {
            Some(ButtonState::Pressed)
        } else if is_flag_set(flags as u32, up_flag) {
            Some(ButtonState::Released)
        } else {
            None
        }
    }
}

/// The state of a key; a held key carries the repeat count of its message.
#[derive(Debug, Default, Copy, Clone, Eq, PartialEq, Structural, Hash)]
pub enum KeyState {
    #[default]
    Released,
    Pressed,
    Held(u16),
}

impl KeyState {
    /// Whether the key is down: pressed or held.
    pub fn is_pressed(self) -> (pressed: bool)
        ensures
            pressed == (self != KeyState::Released),
    {
        // this covers the first moments of the keypress as well
        !matches!(self, KeyState::Released)
    }
}

/// The state of a key as raw input reports it.
#[derive(Debug, Default, Copy, Clone, Eq, PartialEq, Structural, Hash)]
pub enum RawKeyState {
    #[default]
    Released,
    Pressed,
}

impl RawKeyState {
    pub fn is_pressed(self) -> (pressed: bool)
        ensures
            pressed == (self != RawKeyState::Released),
    {
        // this covers the first moments of the keypress as well
        self != RawKeyState::Released
    }

    /// Pressed where the key went down, else released where it went up, else
    /// no state.
    pub fn from_bools(down_flag: bool, up_flag: bool) -> (state: Option<Self>)
        ensures
            state == (if down_flag {
                Some(RawKeyState::Pressed)
            } else if up_flag {
                Some(RawKeyState::Released)
            } else {
                None::<RawKeyState>
            }),
    {
        if down_flag {
            Some(RawKeyState::Pressed)
        } else if up_flag {
            Some(RawKeyState::Released)
        } else {
            None
        }
    }
}

} // verus!

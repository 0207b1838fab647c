//! Mouse buttons.

use vstd::arithmetic::power2::pow2;
use vstd::prelude::*;

use super::state::{spec_state_from_flag, ButtonState};
use crate::win32;

verus! {

/// A mouse button.
#[derive(Debug, Copy, Clone, Eq, PartialEq, Structural, Hash)]
pub enum Mouse {
    Unknown,
    Left,
    Right,
    Middle,
    Back,
    Forward,
}

/// A mouse button.
pub type MouseButton = Mouse;

impl Mouse {
    /// The button's number: 0 for an unknown button, then 1 to 5 for left,
    /// right, middle, back and forward.
    pub open spec fn spec_code(self) -> u16 {
        match self {
            Mouse::Unknown => 0,
            Mouse::Left => 1,
            Mouse::Right => 2,
            Mouse::Middle => 3,
            Mouse::Back => 4,
            Mouse::Forward => 5,
        }
    }

    /// The button's number (see [`Mouse::spec_code`]).
    pub fn code(self) -> (code: u16)
        ensures
            code == self.spec_code(),
    {
        match self {
            Mouse::Unknown => 0,
            Mouse::Left => 1,
            Mouse::Right => 2,
            Mouse::Middle => 3,
            Mouse::Back => 4,
            Mouse::Forward => 5,
        }
    }

    /// The button at index `id` of the raw-input button list: left, right,
    /// middle, back, forward; any other index is an unknown button.
    pub fn from_state(id: usize) -> (button: Mouse)
        ensures
            id < 5 ==> button.spec_code() == id + 1,
            id == 0 ==> button == Mouse::Left,
            id == 1 ==> button == Mouse::Right,
            id == 2 ==> button == Mouse::Middle,
            id == 3 ==> button == Mouse::Back,
            id == 4 ==> button == Mouse::Forward,
            id >= 5 ==> button == Mouse::Unknown,
    {
        match id {
            0 => Self::Left,
            1 => Self::Right,
            2 => Self::Middle,
            3 => Self::Back,
            4 => Self::Forward,
            _ => Self::Unknown,
        }
    }
}

/// The raw-input flags of the button at index `i` (0 to 4): its down flag and
/// its up flag.
pub open spec fn raw_button_flags(i: int) -> (u32, u32) {
    if i == 0 {
        (win32::RI_MOUSE_BUTTON_1_DOWN, win32::RI_MOUSE_BUTTON_1_UP)
    } else if i == 1 {
        (win32::RI_MOUSE_BUTTON_2_DOWN, win32::RI_MOUSE_BUTTON_2_UP)
    } else if i == 2 {
        (win32::RI_MOUSE_BUTTON_3_DOWN, win32::RI_MOUSE_BUTTON_3_UP)
    } else if i == 3 {
        (win32::RI_MOUSE_BUTTON_4_DOWN, win32::RI_MOUSE_BUTTON_4_UP)
    } else {
        (win32::RI_MOUSE_BUTTON_5_DOWN, win32::RI_MOUSE_BUTTON_5_UP)
    }
}

/// The raw-input flags of the button at index `i` are those of Windows button
/// number `i + 1`: its down flag is bit `2i` and its up flag bit `2i + 1`;
/// and the buttons are numbered left, right, middle, back, forward, so the
/// middle button's flags are `RI_MOUSE_BUTTON_3_DOWN` and `_UP`.
pub proof fn lemma_raw_button_flags(i: int)
    requires
        0 <= i < 5,
    ensures
        raw_button_flags(i).0 == pow2((2 * i) as nat),
        raw_button_flags(i).1 == pow2((2 * i + 1) as nat),
        raw_button_flags(2) == (win32::RI_MOUSE_BUTTON_3_DOWN, win32::RI_MOUSE_BUTTON_3_UP),
        raw_button_flags(3) == (win32::RI_MOUSE_BUTTON_4_DOWN, win32::RI_MOUSE_BUTTON_4_UP),
        Mouse::Middle.spec_code() == 3,
        Mouse::Back.spec_code() == 4,
{
    vstd::arithmetic::power2::lemma2_to64();
}

/// The state change that the raw-input button flags report for each of the
/// five buttons, in the order of [`Mouse::from_state`].
pub fn mouse_button_states(flags: u16) -> (states: [Option<ButtonState>; 5])
    ensures
        forall|i: int|
            0 <= i < 5 ==> #[trigger] states@[i] == spec_state_from_flag(
                flags,
                raw_button_flags(i).0,
                raw_button_flags(i).1,
            ),
            states@[0] == spec_state_from_flag(
                flags,
                win32::RI_MOUSE_BUTTON_1_DOWN,
                win32::RI_MOUSE_BUTTON_1_UP,
            ),
            states@[1] == spec_state_from_flag(
                flags,
                win32::RI_MOUSE_BUTTON_2_DOWN,
                win32::RI_MOUSE_BUTTON_2_UP,
            ),
            states@[2] == spec_state_from_flag(
                flags,
                win32::RI_MOUSE_BUTTON_3_DOWN,
                win32::RI_MOUSE_BUTTON_3_UP,
            ),
            states@[3] == spec_state_from_flag(
                flags,
                win32::RI_MOUSE_BUTTON_4_DOWN,
                win32::RI_MOUSE_BUTTON_4_UP,
            ),
            states@[4] == spec_state_from_flag(
                flags,
                win32::RI_MOUSE_BUTTON_5_DOWN,
                win32::RI_MOUSE_BUTTON_5_UP,
            ),
{
    [
        ButtonState::from_flag(
            flags,
            win32::RI_MOUSE_BUTTON_1_DOWN,
            win32::RI_MOUSE_BUTTON_1_UP,
        ),
        ButtonState::from_flag(
            flags,
            win32::RI_MOUSE_BUTTON_2_DOWN,
            win32::RI_MOUSE_BUTTON_2_UP,
        ),
        ButtonState::from_flag(
            flags,
            win32::RI_MOUSE_BUTTON_3_DOWN,
            win32::RI_MOUSE_BUTTON_3_UP,
        ),
        ButtonState::from_flag(
            flags,
            win32::RI_MOUSE_BUTTON_4_DOWN,
            win32::RI_MOUSE_BUTTON_4_UP,
        ),
        ButtonState::from_flag(
            flags,
            win32::RI_MOUSE_BUTTON_5_DOWN,
            win32::RI_MOUSE_BUTTON_5_UP,
        ),
    ]
}

} // verus!

//! Keyboard and mouse input.

use std::collections::HashMap;

use vstd::prelude::*;

use self::key::Key;
use self::mouse::Mouse;
use self::state::{ButtonState, KeyState};

pub mod key;
pub mod modifier;
pub mod mouse;
pub mod state;

verus! {

broadcast use vstd::std_specs::hash::group_hash_axioms;

#[derive(Debug)]
pub struct InputState {}

/// The state of the keys, the mouse buttons and the modifiers, as the window
/// last saw them.
#[derive(Debug)]
pub struct Input {
    mouse_buttons: HashMap<u16, ButtonState>,
    keys: HashMap<u16, KeyState>,
    shift: ButtonState,
    ctrl: ButtonState,
    alt: ButtonState,
    win: ButtonState,
}

/// The abstract state of an [`Input`]: the tracked keys and buttons by their
/// numbers ([`Key::spec_code`], [`Mouse::spec_code`]) and the modifiers.
pub struct InputView {
    pub keys: Map<u16, KeyState>,
    pub mouse_buttons: Map<u16, ButtonState>,
    pub shift: ButtonState,
    pub ctrl: ButtonState,
    pub alt: ButtonState,
    pub win: ButtonState,
}

impl View for Input {
    type V = InputView;

    closed spec fn view(&self) -> InputView {
        InputView {
            keys: self.keys@,
            mouse_buttons: self.mouse_buttons@,
            shift: self.shift,
            ctrl: self.ctrl,
            alt: self.alt,
            win: self.win,
        }
    }
}

impl InputView {
    /// The state of a key: its tracked state, or released where it is not
    /// tracked.
    pub open spec fn key(self, keycode: Key) -> KeyState {
        if self.keys.contains_key(keycode.spec_code()) {
            self.keys[keycode.spec_code()]
        } else {
            KeyState::Released
        }
    }

    /// The state of a mouse button: its tracked state, or released where it
    /// is not tracked.
    pub open spec fn mouse(self, button: Mouse) -> ButtonState {
        if self.mouse_buttons.contains_key(button.spec_code()) {
            self.mouse_buttons[button.spec_code()]
        } else {
            ButtonState::Released
        }
    }
}

/// A modifier is pressed when its left or its right key is down.
pub open spec fn spec_modifier_state(left: KeyState, right: KeyState) -> ButtonState {
    if left != KeyState::Released || right != KeyState::Released {
        ButtonState::Pressed
    } else {
        ButtonState::Released
    }
}

impl InputView {
    /// The input after its modifiers were derived anew from its keys: each is
    /// pressed when its left or right key is down.
    pub open spec fn spec_update_modifiers(self) -> InputView {
        InputView {
            shift: spec_modifier_state(self.key(Key::LeftShift), self.key(Key::RightShift)),
            ctrl: spec_modifier_state(self.key(Key::LeftControl), self.key(Key::RightControl)),
            alt: spec_modifier_state(self.key(Key::LeftAlt), self.key(Key::RightAlt)),
            win: spec_modifier_state(self.key(Key::LeftSuper), self.key(Key::RightSuper)),
            ..self
        }
    }

    /// Whether deriving the modifiers anew changes any of them.
    pub open spec fn spec_modifiers_change(self) -> bool {
        let updated = self.spec_update_modifiers();
        updated.shift != self.shift || updated.ctrl != self.ctrl || updated.alt != self.alt
            || updated.win != self.win
    }
}

/// Each modifier is derived from its own two keys: it is pressed exactly when
/// its left or its right key is down (pressed or held), whatever the other
/// keys; deriving the modifiers touches no key and no button, and reports a
/// change exactly when one of the four modifiers changed.
pub proof fn lemma_modifiers_follow_their_keys(input: InputView)
    ensures
        ({
            let updated = input.spec_update_modifiers();
            let down = |k: Key| input.key(k) != KeyState::Released;
            &&& (updated.shift == ButtonState::Pressed) == (down(Key::LeftShift) || down(
                Key::RightShift,
            ))
            &&& (updated.ctrl == ButtonState::Pressed) == (down(Key::LeftControl) || down(
                Key::RightControl,
            ))
            &&& (updated.alt == ButtonState::Pressed) == (down(Key::LeftAlt) || down(
                Key::RightAlt,
            ))
            &&& (updated.win == ButtonState::Pressed) == (down(Key::LeftSuper) || down(
                Key::RightSuper,
            ))
            &&& updated.keys == input.keys
            &&& updated.mouse_buttons == input.mouse_buttons
            &&& input.spec_modifiers_change() == (updated.shift != input.shift || updated.ctrl
                != input.ctrl || updated.alt != input.alt || updated.win != input.win)
        }),
{
}

/// Deriving the modifiers twice changes nothing the second time: the second
/// derivation reports no change and leaves the input as the first one left it.
pub proof fn lemma_update_modifiers_idempotent(input: InputView)
    ensures
        !input.spec_update_modifiers().spec_modifiers_change(),
        input.spec_update_modifiers().spec_update_modifiers() == input.spec_update_modifiers(),
{
}

/// Recording a key's state is seen by a later lookup of that key, and so is
/// recording a mouse button's state.
pub proof fn lemma_update_key_state_seen(
    input: InputView,
    keycode: Key,
    new_state: KeyState,
    button: Mouse,
    new_button_state: ButtonState,
)
    ensures
        (InputView {
            keys: input.keys.insert(keycode.spec_code(), new_state),
            ..input
        }).key(keycode) == new_state,
        (InputView {
            mouse_buttons: input.mouse_buttons.insert(button.spec_code(), new_button_state),
            ..input
        }).mouse(button) == new_button_state,
{
}

/// Recording a key's state leaves the state of every other key as it was,
/// and recording a mouse button's state leaves every other button as it was.
pub proof fn lemma_update_leaves_others(
    input: InputView,
    keycode: Key,
    new_state: KeyState,
    other: Key,
    button: Mouse,
    new_button_state: ButtonState,
    other_button: Mouse,
)
    requires
        other != keycode,
        other_button != button,
    ensures
        (InputView {
            keys: input.keys.insert(keycode.spec_code(), new_state),
            ..input
        }).key(other) == input.key(other),
        (InputView {
            mouse_buttons: input.mouse_buttons.insert(button.spec_code(), new_button_state),
            ..input
        }).mouse(other_button) == input.mouse(other_button),
{
    Key::lemma_code_identifies_key(keycode, other);
}

impl Input {
    /// An input that tracks no key and no button, with every modifier
    /// released.
    pub fn new() -> (input: Self)
        ensures
            input@.keys == Map::<u16, KeyState>::empty(),
            input@.mouse_buttons == Map::<u16, ButtonState>::empty(),
            input@.shift == ButtonState::Released,
            input@.ctrl == ButtonState::Released,
            input@.alt == ButtonState::Released,
            input@.win == ButtonState::Released,
    {
        let mouse_buttons = HashMap::new();
        let keys = HashMap::new();

        Self {
            mouse_buttons,
            keys,
            shift: ButtonState::Released,
            ctrl: ButtonState::Released,
            alt: ButtonState::Released,
            win: ButtonState::Released,
        }
    }

    /// Records `new_state` for `keycode`, whether or not the key was tracked
    /// before: from then on the key is tracked, and a lookup reads that state.
    pub fn update_key_state(&mut self, keycode: Key, new_state: KeyState)
        ensures
            final(self)@.keys == old(self)@.keys.insert(keycode.spec_code(), new_state),
            final(self)@.mouse_buttons == old(self)@.mouse_buttons,
            final(self)@.shift == old(self)@.shift,
            final(self)@.ctrl == old(self)@.ctrl,
            final(self)@.alt == old(self)@.alt,
            final(self)@.win == old(self)@.win,
    {
        let code = keycode.code();
        self.keys.insert(code, new_state);
    }

    /// Records `new_state` for `button`, whether or not the button was
    /// tracked before: from then on the button is tracked, and a lookup reads
    /// that state.
    pub fn update_mouse_button_state(&mut self, button: Mouse, new_state: ButtonState)
        ensures
            final(self)@.mouse_buttons == old(self)@.mouse_buttons.insert(
                button.spec_code(),
                new_state,
            ),
            final(self)@.keys == old(self)@.keys,
            final(self)@.shift == old(self)@.shift,
            final(self)@.ctrl == old(self)@.ctrl,
            final(self)@.alt == old(self)@.alt,
            final(self)@.win == old(self)@.win,
    {
        let code = button.code();
        self.mouse_buttons.insert(code, new_state);
    }

    /// Derives the modifiers from the keys: each is pressed when its left or
    /// right key is down. Returns whether any modifier changed, then the new
    /// shift, ctrl, alt and win states.
    pub fn update_modifiers_state(&mut self) -> (result: (
        bool,
        ButtonState,
        ButtonState,
        ButtonState,
        ButtonState,
    ))
        ensures
            final(self)@ == old(self)@.spec_update_modifiers(),
            result.0 == old(self)@.spec_modifiers_change(),
            result.1 == final(self)@.shift,
            result.2 == final(self)@.ctrl,
            result.3 == final(self)@.alt,
            result.4 == final(self)@.win,
            final(self)@.keys == old(self)@.keys,
            final(self)@.mouse_buttons == old(self)@.mouse_buttons,
            final(self)@.shift == (if old(self)@.key(Key::LeftShift) != KeyState::Released || old(self)@.key(
                Key::RightShift,
            ) != KeyState::Released {
                ButtonState::Pressed
            } else {
                ButtonState::Released
            }),
            final(self)@.ctrl == (if old(self)@.key(Key::LeftControl) != KeyState::Released || old(self)@.key(
                Key::RightControl,
            ) != KeyState::Released {
                ButtonState::Pressed
            } else {
                ButtonState::Released
            }),
            final(self)@.alt == (if old(self)@.key(Key::LeftAlt) != KeyState::Released || old(self)@.key(
                Key::RightAlt,
            ) != KeyState::Released {
                ButtonState::Pressed
            } else {
                ButtonState::Released
            }),
            final(self)@.win == (if old(self)@.key(Key::LeftSuper) != KeyState::Released || old(self)@.key(
                Key::RightSuper,
            ) != KeyState::Released {
                ButtonState::Pressed
            } else {
                ButtonState::Released
            }),
            result.0 == (final(self)@.shift != old(self)@.shift || final(self)@.ctrl != old(
                self,
            )@.ctrl || final(self)@.alt != old(self)@.alt || final(self)@.win != old(self)@.win),
    {
        let mut changed = false;

        let old_value = self.shift;
        self.shift = if self.key(Key::LeftShift).is_pressed() || self.key(
            Key::RightShift,
        ).is_pressed() {
            ButtonState::Pressed
        } else {
            ButtonState::Released
        };
        changed = changed || self.shift != old_value;

        let old_value = self.ctrl;
        self.ctrl = if self.key(Key::LeftControl).is_pressed() || self.key(
            Key::RightControl,
        ).is_pressed() {
            ButtonState::Pressed
        } else {
            ButtonState::Released
        };
        changed = changed || self.ctrl != old_value;

        let old_value = self.alt;
        self.alt = if self.key(Key::LeftAlt).is_pressed() || self.key(Key::RightAlt).is_pressed() {
            ButtonState::Pressed
        } else {
            ButtonState::Released
        };
        changed = changed || self.alt != old_value;

        let old_value = self.win;
        self.win = if self.key(Key::LeftSuper).is_pressed() || self.key(
            Key::RightSuper,
        ).is_pressed() {
            ButtonState::Pressed
        } else {
            ButtonState::Released
        };
        changed = changed || self.win != old_value;

        (changed, self.shift, self.ctrl, self.alt, self.win)
    }

    // KEYBOARD
    /// The state of a key (see [`InputView::key`]).
    pub fn key(&self, keycode: Key) -> (state: KeyState)
        ensures
            state == self@.key(keycode),
    {
        let code = keycode.code();
        match self.keys.get(&code) {
            Some(state) => *state,
            None => KeyState::Released,
        }
    }

    // MOUSE
    /// The state of a mouse button (see [`InputView::mouse`]).
    pub fn mouse(&self, button: Mouse) -> (state: ButtonState)
        ensures
            state == self@.mouse(button),
    {
        let code = button.code();
        match self.mouse_buttons.get(&code) {
            Some(state) => *state,
            None => ButtonState::Released,
        }
    }

    // MODS
    pub fn shift(&self) -> (state: ButtonState)
        ensures
            state == self@.shift,
    {
        self.shift
    }

    pub fn ctrl(&self) -> (state: ButtonState)
        ensures
            state == self@.ctrl,
    {
        self.ctrl
    }

    pub fn alt(&self) -> (state: ButtonState)
        ensures
            state == self@.alt,
    {
        self.alt
    }

    pub fn win(&self) -> (state: ButtonState)
        ensures
            state == self@.win,
    {
        self.win
    }
}

impl Default for Input {
    fn default() -> (input: Self)
        ensures
            input@.keys == Map::<u16, KeyState>::empty(),
            input@.mouse_buttons == Map::<u16, ButtonState>::empty(),
            input@.shift == ButtonState::Released,
            input@.ctrl == ButtonState::Released,
            input@.alt == ButtonState::Released,
            input@.win == ButtonState::Released,
    {
        Self::new()
    }
}

} // verus!

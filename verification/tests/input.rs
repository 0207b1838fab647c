use witer::window::input::key::{from_raw, raw_key_scancode, Key};
use witer::window::input::modifier::Modifiers;
use witer::window::input::mouse::{mouse_button_states, Mouse};
use witer::window::input::state::{ButtonState, KeyState, RawKeyState};
use witer::window::input::Input;
use windows::Win32::UI::Input::KeyboardAndMouse as km;

#[test]
fn key_states_are_pressed() {
    assert!(KeyState::Pressed.is_pressed());
    assert!(KeyState::Held(3).is_pressed());
    assert!(!KeyState::Released.is_pressed());
    assert!(ButtonState::Pressed.is_pressed());
    assert!(!ButtonState::Released.is_pressed());
    assert!(RawKeyState::Pressed.is_pressed());
    assert!(!RawKeyState::Released.is_pressed());
    assert_eq!(KeyState::default(), KeyState::Released);
    assert_eq!(ButtonState::default(), ButtonState::Released);
}

#[test]
fn raw_key_state_from_bools() {
    assert_eq!(RawKeyState::from_bools(true, true), Some(RawKeyState::Pressed));
    assert_eq!(RawKeyState::from_bools(true, false), Some(RawKeyState::Pressed));
    assert_eq!(RawKeyState::from_bools(false, true), Some(RawKeyState::Released));
    assert_eq!(RawKeyState::from_bools(false, false), None);
}

#[test]
fn button_state_from_flags() {
    assert_eq!(ButtonState::from_flag(0b01, 0b01, 0b10), Some(ButtonState::Pressed));
    assert_eq!(ButtonState::from_flag(0b10, 0b01, 0b10), Some(ButtonState::Released));
    assert_eq!(ButtonState::from_flag(0b11, 0b01, 0b10), Some(ButtonState::Pressed));
    assert_eq!(ButtonState::from_flag(0b100, 0b01, 0b10), None);
}

#[test]
fn mouse_buttons_by_index() {
    assert_eq!(Mouse::from_state(0), Mouse::Left);
    assert_eq!(Mouse::from_state(1), Mouse::Right);
    assert_eq!(Mouse::from_state(2), Mouse::Middle);
    assert_eq!(Mouse::from_state(3), Mouse::Back);
    assert_eq!(Mouse::from_state(4), Mouse::Forward);
    assert_eq!(Mouse::from_state(5), Mouse::Unknown);
    assert_eq!(Mouse::Forward.code(), 5);
    assert_eq!(Mouse::Unknown.code(), 0);
}

#[test]
fn raw_mouse_button_states() {
    // button 1 down, button 2 up, button 5 down
    let states = mouse_button_states(0x0001 | 0x0008 | 0x0100);
    assert_eq!(
        states,
        [
            Some(ButtonState::Pressed),
            Some(ButtonState::Released),
            None,
            None,
            Some(ButtonState::Pressed),
        ]
    );
    assert_eq!(mouse_button_states(0), [None; 5]);
}

#[test]
fn modifier_bits() {
    assert_eq!(Modifiers::Shift.bits(), 1);
    assert_eq!(Modifiers::Ctrl.bits(), 2);
    assert_eq!(Modifiers::Alt.bits(), 4);
    assert_eq!(Modifiers::Windows.bits(), 8);
}

#[test]
fn key_codes() {
    assert_eq!(Key::Unknown.code(), 0);
    assert_eq!(Key::A.code(), 65);
    assert_eq!(Key::_0.code(), 48);
    assert_eq!(Key::Accent.code(), 96);
    assert_eq!(Key::Escape.code(), 256);
    assert_eq!(Key::NumEnter.code(), 257);
    assert_eq!(Key::Copy.code(), 350);
}

#[test]
fn virtual_keys_match_the_windows_crate() {
    let pairs = [
        (Key::A, km::VK_A),
        (Key::Z, km::VK_Z),
        (Key::_0, km::VK_0),
        (Key::_9, km::VK_9),
        (Key::Escape, km::VK_ESCAPE),
        (Key::Enter, km::VK_RETURN),
        (Key::NumEnter, km::VK_RETURN),
        (Key::F1, km::VK_F1),
        (Key::F24, km::VK_F24),
        (Key::Num0, km::VK_NUMPAD0),
        (Key::NumLock, km::VK_NUMLOCK),
        (Key::LeftShift, km::VK_LSHIFT),
        (Key::RightSuper, km::VK_RWIN),
        (Key::PageDown, km::VK_NEXT),
        (Key::PrintScreen, km::VK_SNAPSHOT),
        (Key::Copy, km::VK_OEM_COPY),
        (Key::Comma, km::VK_OEM_COMMA),
        (Key::NumComma, km::VK_OEM_COMMA),
        (Key::Unknown, km::VIRTUAL_KEY(0)),
    ];
    for (key, vk) in pairs {
        assert_eq!(key.to_virtual_key(), vk.0, "{key:?}");
    }
    assert_eq!(witer::window::input::key::VK_NUMLOCK, km::VK_NUMLOCK.0);
    assert_eq!(witer::window::input::key::VK_SHIFT, km::VK_SHIFT.0);
}

#[test]
fn virtual_key_round_trip() {
    let mut named = 0;
    for vk in 0..=u16::MAX {
        let key = Key::from_virtual_key(vk);
        if key != Key::Unknown {
            named += 1;
            assert_eq!(key.to_virtual_key(), vk);
        }
    }
    assert_eq!(named, 142);
    for key in [Key::A, Key::Enter, Key::Comma, Key::Equals, Key::F13, Key::WebStop, Key::Kana] {
        assert_eq!(Key::from_virtual_key(key.to_virtual_key()), key);
    }
    // the numpad keys share their codes with the main keys
    assert_eq!(Key::from_virtual_key(Key::NumEnter.to_virtual_key()), Key::Enter);
    assert_eq!(Key::from_virtual_key(Key::NumComma.to_virtual_key()), Key::Comma);
    assert_eq!(Key::from_virtual_key(Key::NumEquals.to_virtual_key()), Key::Equals);
    assert_eq!(Key::from_virtual_key(0x07), Key::Unknown);
}

#[test]
fn raw_scancodes() {
    assert_eq!(raw_key_scancode(0, 0x1E, 0x99), 0x1E);
    assert_eq!(raw_key_scancode(2, 0x1D, 0x99), 0xE01D);
    assert_eq!(raw_key_scancode(4, 0x1D, 0x99), 0xE11D);
    assert_eq!(raw_key_scancode(6, 0x1D, 0x99), 0xE01D);
    assert_eq!(raw_key_scancode(2, 0, 0xE022), 0xE022);
}

#[test]
fn raw_keys() {
    // the fake Ctrl of Pause and the fake Shift of PrintScreen are ignored
    assert_eq!(from_raw(0x11, 0xE11D, 0x11), None);
    assert_eq!(from_raw(0x10, 0xE02A, 0x10), None);
    // NumLock is told apart by its virtual key
    assert_eq!(from_raw(km::VK_NUMLOCK.0, 0x45, km::VK_PAUSE.0), Some(Key::NumLock));
    assert_eq!(from_raw(km::VK_PAUSE.0, 0x45, km::VK_PAUSE.0), Some(Key::Pause));
    // a fake Shift report that names a numpad key is ignored
    assert_eq!(from_raw(km::VK_SHIFT.0, 0x4F, km::VK_NUMPAD1.0), None);
    assert_eq!(from_raw(km::VK_SHIFT.0, 0x2A, km::VK_LSHIFT.0), Some(Key::LeftShift));
    assert_eq!(from_raw(0x41, 0x1E, km::VK_A.0), Some(Key::A));
}

#[test]
fn new_input_is_released() {
    let input = Input::new();
    assert_eq!(input.key(Key::A), KeyState::Released);
    assert_eq!(input.mouse(Mouse::Left), ButtonState::Released);
    assert_eq!(input.shift(), ButtonState::Released);
    assert_eq!(input.ctrl(), ButtonState::Released);
    assert_eq!(input.alt(), ButtonState::Released);
    assert_eq!(input.win(), ButtonState::Released);
}

#[test]
fn recorded_states_are_seen() {
    let mut input = Input::default();
    input.update_key_state(Key::LeftShift, KeyState::Pressed);
    input.update_mouse_button_state(Mouse::Left, ButtonState::Pressed);
    assert_eq!(input.key(Key::LeftShift), KeyState::Pressed);
    assert_eq!(input.mouse(Mouse::Left), ButtonState::Pressed);
    // other keys and buttons are untouched
    assert_eq!(input.key(Key::RightShift), KeyState::Released);
    assert_eq!(input.key(Key::A), KeyState::Released);
    assert_eq!(input.mouse(Mouse::Right), ButtonState::Released);
    // the modifiers follow the keys once derived anew
    assert_eq!(input.shift(), ButtonState::Released);
    let (changed, shift, ctrl, alt, win) = input.update_modifiers_state();
    assert!(changed);
    assert_eq!(
        (shift, ctrl, alt, win),
        (ButtonState::Pressed, ButtonState::Released, ButtonState::Released, ButtonState::Released)
    );
    // deriving the modifiers twice changes nothing the second time
    assert!(!input.update_modifiers_state().0);
    input.update_key_state(Key::LeftShift, KeyState::Held(2));
    assert_eq!(input.key(Key::LeftShift), KeyState::Held(2));
    input.update_key_state(Key::LeftShift, KeyState::Released);
    assert!(input.update_modifiers_state().0);
    assert_eq!(input.shift(), ButtonState::Released);
}

#[test]
fn virtual_key_conversions() {
    assert_eq!(Key::from(km::VK_A), Key::A);
    assert_eq!(Key::from(km::VK_RETURN), Key::Enter);
    assert_eq!(Key::from(km::VK_NUMLOCK), Key::NumLock);
    assert_eq!(Key::from(km::VIRTUAL_KEY(0x07)), Key::Unknown);
    assert_eq!(km::VIRTUAL_KEY::from(Key::A), km::VK_A);
    assert_eq!(km::VIRTUAL_KEY::from(Key::NumEnter), km::VK_RETURN);
    assert_eq!(km::VIRTUAL_KEY::from(Key::PageDown), km::VK_NEXT);
    assert_eq!(km::VIRTUAL_KEY::from(Key::Unknown), km::VIRTUAL_KEY(0));
    assert_eq!(Key::from(km::VIRTUAL_KEY::from(Key::F13)), Key::F13);
}

//! Window messages sorted by kind, with their priority: one message per
//! window message, decoded without the window's state.

use vstd::prelude::*;

use super::input::key::Key;
use super::input::mouse::Mouse;
use super::input::state::{ButtonState, KeyState};
use super::message::{
    is_double_click_message, spec_keyboard_message, spec_message_button,
    spec_message_button_down, Message as WindowEvent,
};
use crate::utilities::{hi_word, signed16, signed_hi_word, signed_lo_word};
use crate::win32;

verus! {

#[derive(Debug, Clone, Copy, PartialEq, Eq, Structural, PartialOrd, Ord)]
pub enum MessagePriority {
    Low,
    High,
}

#[derive(Debug, Clone, Copy, PartialEq, Eq, Structural, PartialOrd, Ord, Hash)]
pub enum WindowMode {
    Normal,
    Minimized,
}

#[derive(Debug, Default, PartialEq, Clone)]
pub enum Message {
    #[default]
    Empty,
    Window(WindowMessage),
    Keyboard { key: Key, state: KeyState, scan_code: u16, is_extended_key: bool },
    Mouse(MouseMessage),
    Other { hwnd: isize, message: u32, wparam: usize, lparam: isize },
    CloseRequested,
    Closing,
}

#[derive(Debug, PartialEq, Eq, Clone, Structural, Hash)]
pub enum WindowMessage {
    Ready { hwnd: isize, hinstance: isize },
    Draw,
    Resizing { size_state: WindowMode },
    Moving,
    Resized,
    Moved,
    StartedSizingOrMoving,
    StoppedSizingOrMoving,
}

/// Mouse messages; a scroll is in the wheel's own units (`WHEEL_DELTA`, 120,
/// is one notch).
#[derive(Debug, PartialEq, Clone)]
pub enum MouseMessage {
    Button { button: Mouse, state: ButtonState, x: i16, y: i16, is_double_click: bool },
    Cursor { x: i16, y: i16 },
    Scroll { x: i16, y: i16 },
}

/// The low word of a message parameter's low 32 bits, read as a signed value.
pub open spec fn spec_signed_lo(l_param: isize) -> i16 {
    signed16(((l_param as i32) as int) % 65536) as i16
}

/// The high word of a message parameter's low 32 bits, read as a signed value.
pub open spec fn spec_signed_hi(param: isize) -> i16 {
    (((param as i32) as int) / 65536) as i16
}

/// The high word of a `wParam`'s low 32 bits, read as a signed value.
pub open spec fn spec_signed_hi_w(param: usize) -> i16 {
    (((param as i32) as int) / 65536) as i16
}

/// The message that a window message stands for, given the virtual keys that
/// the scan codes of a key message map to (see [`spec_keyboard_message`]).
pub open spec fn spec_new_message(
    hwnd: isize,
    message: u32,
    w_param: usize,
    l_param: isize,
    extended_vk: u16,
    vk: u16,
) -> Message {
    if message == win32::WM_CLOSE {
        Message::CloseRequested
    } else if message == win32::WM_DESTROY {
        Message::Closing
    } else if message == win32::WM_PAINT {
        Message::Window(WindowMessage::Draw)
    } else if message == win32::WM_ENTERSIZEMOVE {
        Message::Window(WindowMessage::StartedSizingOrMoving)
    } else if message == win32::WM_EXITSIZEMOVE {
        Message::Window(WindowMessage::StoppedSizingOrMoving)
    } else if message == win32::WM_SIZING {
        Message::Window(
            WindowMessage::Resizing {
                size_state: if w_param as u32 != win32::SIZE_MINIMIZED {
                    WindowMode::Normal
                } else {
                    WindowMode::Minimized
                },
            },
        )
    } else if message == win32::WM_MOVING {
        Message::Window(WindowMessage::Moving)
    } else if message == win32::WM_SIZE {
        Message::Window(WindowMessage::Resized)
    } else if message == win32::WM_MOVE {
        Message::Window(WindowMessage::Moved)
    } else if win32::WM_KEYFIRST <= message <= win32::WM_KEYLAST {
        match spec_keyboard_message(l_param, extended_vk, vk) {
            WindowEvent::Key { key, state, scan_code, is_extended_key } => Message::Keyboard {
                key,
                state,
                scan_code,
                is_extended_key,
            },
            _ => Message::Empty,
        }
    } else if message == win32::WM_LBUTTONDBLCLK || message == win32::WM_RBUTTONDBLCLK
        || message == win32::WM_MBUTTONDBLCLK || message == win32::WM_XBUTTONDBLCLK || message
        == win32::WM_LBUTTONDOWN || message == win32::WM_RBUTTONDOWN || message
        == win32::WM_MBUTTONDOWN || message == win32::WM_XBUTTONDOWN || message
        == win32::WM_LBUTTONUP || message == win32::WM_RBUTTONUP || message
        == win32::WM_MBUTTONUP || message == win32::WM_XBUTTONUP {
        Message::Mouse(
            MouseMessage::Button {
                button: spec_message_button(message, w_param as u32),
                state: if spec_message_button_down(message, w_param as u32) {
                    ButtonState::Pressed
                } else {
                    ButtonState::Released
                },
                x: spec_signed_lo(l_param),
                y: spec_signed_hi(l_param),
                is_double_click: is_double_click_message(message),
            },
        )
    } else if message == win32::WM_MOUSEMOVE {
        Message::Mouse(MouseMessage::Cursor { x: spec_signed_lo(l_param), y: spec_signed_hi(l_param) })
    } else if message == win32::WM_MOUSEWHEEL {
        Message::Mouse(MouseMessage::Scroll { x: 0, y: spec_signed_hi_w(w_param) })
    } else if message == win32::WM_MOUSEHWHEEL {
        Message::Mouse(MouseMessage::Scroll { x: spec_signed_hi_w(w_param), y: 0 })
    } else {
        Message::Other { hwnd, message, wparam: w_param, lparam: l_param }
    }
}

impl Message {
    /// The message that a window message stands for (see [`spec_new_message`]).
    pub fn new(
        h_wnd: isize,
        message: u32,
        w_param: usize,
        l_param: isize,
        extended_vk: u16,
        vk: u16,
    ) -> (msg: Self)
        ensures
            msg == spec_new_message(h_wnd, message, w_param, l_param, extended_vk, vk),
    {
        if message == win32::WM_CLOSE {
            Message::CloseRequested
        } else if message == win32::WM_DESTROY {
            Message::Closing
        } else if message == win32::WM_PAINT {
            Message::Window(WindowMessage::Draw)
        } else if message == win32::WM_ENTERSIZEMOVE {
            Message::Window(WindowMessage::StartedSizingOrMoving)
        } else if message == win32::WM_EXITSIZEMOVE {
            Message::Window(WindowMessage::StoppedSizingOrMoving)
        } else if message == win32::WM_SIZING {
            let w = #[verifier::truncate] (w_param as u32);
            Message::Window(
                WindowMessage::Resizing {
                    size_state: if w != win32::SIZE_MINIMIZED {
                        WindowMode::Normal
                    } else {
                        WindowMode::Minimized
                    },
                },
            )
        } else if message == win32::WM_MOVING {
            Message::Window(WindowMessage::Moving)
        } else if message == win32::WM_SIZE {
            Message::Window(WindowMessage::Resized)
        } else if message == win32::WM_MOVE {
            Message::Window(WindowMessage::Moved)
        } else if win32::WM_KEYFIRST <= message && message <= win32::WM_KEYLAST {
            Self::new_keyboard_message(l_param, extended_vk, vk)
        } else if message == win32::WM_LBUTTONDBLCLK || message == win32::WM_RBUTTONDBLCLK
            || message == win32::WM_MBUTTONDBLCLK || message == win32::WM_XBUTTONDBLCLK
            || message == win32::WM_LBUTTONDOWN || message == win32::WM_RBUTTONDOWN || message
            == win32::WM_MBUTTONDOWN || message == win32::WM_XBUTTONDOWN || message
            == win32::WM_LBUTTONUP || message == win32::WM_RBUTTONUP || message
            == win32::WM_MBUTTONUP || message == win32::WM_XBUTTONUP {
            Self::new_mouse_button_message(message, w_param, l_param)
        } else if message == win32::WM_MOUSEMOVE {
            let l = #[verifier::truncate] (l_param as i32);
            Message::Mouse(MouseMessage::Cursor { x: signed_lo_word(l), y: signed_hi_word(l) })
        } else if message == win32::WM_MOUSEWHEEL {
            let w = #[verifier::truncate] (w_param as i32);
            Message::Mouse(MouseMessage::Scroll { x: 0, y: signed_hi_word(w) })
        } else if message == win32::WM_MOUSEHWHEEL {
            let w = #[verifier::truncate] (w_param as i32);
            Message::Mouse(MouseMessage::Scroll { x: signed_hi_word(w), y: 0 })
        } else {
            Message::Other { hwnd: h_wnd, message, wparam: w_param, lparam: l_param }
        }
    }

    fn new_keyboard_message(l_param: isize, extended_vk: u16, vk: u16) -> (msg: Message)
        ensures
            msg == (match spec_keyboard_message(l_param, extended_vk, vk) {
                WindowEvent::Key { key, state, scan_code, is_extended_key } => Message::Keyboard {
                    key,
                    state,
                    scan_code,
                    is_extended_key,
                },
                _ => Message::Empty,
            }),
    {
        match WindowEvent::new_keyboard_message(l_param, extended_vk, vk) {
            WindowEvent::Key { key, state, scan_code, is_extended_key } => Message::Keyboard {
                key,
                state,
                scan_code,
                is_extended_key,
            },
            _ => Message::Empty,
        }
    }

    fn new_mouse_button_message(message: u32, w_param: usize, l_param: isize) -> (msg: Message)
        ensures
            msg == Message::Mouse(
                MouseMessage::Button {
                    button: spec_message_button(message, w_param as u32),
                    state: if spec_message_button_down(message, w_param as u32) {
                        ButtonState::Pressed
                    } else {
                        ButtonState::Released
                    },
                    x: spec_signed_lo(l_param),
                    y: spec_signed_hi(l_param),
                    is_double_click: is_double_click_message(message),
                },
            ),
    {
        match WindowEvent::new_mouse_button_message(message, w_param, l_param) {
            WindowEvent::MouseButton { button, state, is_double_click, .. } => {
                let l = #[verifier::truncate] (l_param as i32);
                let x = signed_lo_word(l);
                let y = signed_hi_word(l);
                Message::Mouse(MouseMessage::Button { button, state, x, y, is_double_click })
            },
            _ => Message::Empty,
        }
    }
}

} // verus!

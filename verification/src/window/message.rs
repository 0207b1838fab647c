//! The messages that a window hands to its user, and how they are decoded from
//! the parameters of Win32 window messages.

use vstd::prelude::*;

use super::command::{Command, COMMAND_MESSAGE_ID};
use super::data::{PhysicalPosition, PhysicalSize, Rect};
use super::input::key::Key;
use super::input::mouse::Mouse;
use super::input::state::{ButtonState, KeyState, RawKeyState};
use crate::utilities::{
    hi_word, is_flag_set, is_flag_set_u16, lo_byte, lo_word, signed16, signed_hi_word,
    signed_lo_word,
};
use crate::win32;

verus! {

/// Whether the window gained or lost the keyboard focus.
#[derive(Debug, Copy, Clone, PartialEq, Eq, Structural, Hash)]
pub enum Focus {
    Gained,
    Lost,
}

/// Messages sent by the window, message loop, or attached devices.
#[derive(Debug, PartialEq, Clone)]
pub enum Message {
    /// Artificial window messages sent by the window loop.
    Loop(LoopMessage),
    /// Messages sent by devices registered for raw input.
    RawInput(RawInputMessage),
    /// Message sent when window is created.
    Created { hwnd: usize, hinstance: usize },
    /// Message sent when window X button is pressed.
    CloseRequested,
    /// Message sent when Windows requests the window be repainted.
    Paint,
    /// Message sent when a key is pressed, held, or released.
    Key { key: Key, state: KeyState, scan_code: u16, is_extended_key: bool },
    /// Message sent when a text character is typed containing that character.
    Text(String),
    /// Message sent when the state of a modifier changes.
    ModifiersChanged {
        shift: ButtonState,
        ctrl: ButtonState,
        alt: ButtonState,
        win: ButtonState,
    },
    /// Message sent when a mouse button is pressed or released.
    MouseButton {
        button: Mouse,
        state: ButtonState,
        position: PhysicalPosition,
        is_double_click: bool,
    },
    /// Message sent when the scroll wheel is actuated. The deltas are in the
    /// wheel's own units: `WHEEL_DELTA` (120) is one notch.
    MouseWheel { delta_x: i16, delta_y: i16 },
    /// Message sent when the cursor is moved within the window bounds.
    CursorMove { position: PhysicalPosition, kind: CursorMoveKind },
    /// Message sent when the window is resized. Sent after [`Message::BoundsChanged`].
    Resized(PhysicalSize),
    /// Message sent when the window is moved. Sent after [`Message::BoundsChanged`].
    Moved(PhysicalPosition),
    /// Message sent first when the window is moved or resized.
    BoundsChanged { outer_position: PhysicalPosition, outer_size: PhysicalSize },
    /// Message sent by Windows when certain actions are taken. WIP
    Command,
    /// Message sent by Windows when certain actions are taken. WIP
    SystemCommand,
    /// Message sent when the window gains or loses focus.
    Focus(Focus),
    /// Message sent when the DPI of the window has changed; it carries the new
    /// DPI (96 is a scale factor of 1).
    ScaleFactorChanged(u32),
}

/// Artificial window messages sent by the window loop.
#[derive(Debug, PartialEq, Clone)]
pub enum LoopMessage {
    /// Sent when the window receives a command request.
    Command(Command),
    /// Sent when the message pump is polled, but there are no messages.
    Empty,
    /// Sent when the message pump is exiting.
    Exit,
}

/// Messages sent by devices registered for raw input.
#[derive(Debug, PartialEq, Clone)]
pub enum RawInputMessage {
    /// Raw keyboard input
    Keyboard { key: Key, state: RawKeyState },
    /// Raw mouse button input
    MouseButton { button: Mouse, state: ButtonState },
    /// Raw mouse motion, in the device's units.
    MouseMove { delta_x: i32, delta_y: i32 },
}

/// How the cursor moved relative to the window's client area.
#[derive(Debug, Copy, Clone, PartialEq, Eq, Structural, Hash)]
pub enum CursorMoveKind {
    /// Cursor entered to the window.
    Entered,
    /// Cursor left the window client area.
    Left,
    /// Cursor is inside the window or `GetClientRect` failed.
    Inside,
}

impl Message {
    /// Returns `true` if the message matches the supplied key and key state
    pub fn is_key(&self, key: Key, state: KeyState) -> (is: bool)
        ensures
            is == (self matches Message::Key { key: k, state: s, .. } && k == key && s
                == state),
    {
        match self {
            Message::Key { key: k, state: s, .. } => *k == key && *s == state,
            _ => false,
        }
    }

    /// Returns `true` if the message matches the supplied mouse button and
    /// mouse button state
    pub fn is_mouse_button(&self, button: Mouse, state: ButtonState) -> (is: bool)
        ensures
            is == (self matches Message::MouseButton { button: b, state: s, .. } && b == button
                && s == state),
    {
        match self {
            Message::MouseButton { button: b, state: s, .. } => *b == button && *s == state,
            _ => false,
        }
    }

    /// Returns `true` if the message is [`LoopMessage::Empty`]
    pub fn is_empty(&self) -> (is: bool)
        ensures
            is == (self matches Message::Loop(LoopMessage::Empty)),
    {
        match self {
            Message::Loop(LoopMessage::Empty) => true,
            _ => false,
        }
    }
}

// KEYBOARD MESSAGES
/// The keystroke flags of a key message: the high word of its `lParam`.
pub open spec fn key_flags(l_param: isize) -> u16 {
    ((l_param as u32) / 65536) as u16
}

/// The scan code of a key message: the low byte of its keystroke flags.
pub open spec fn key_scan_code(l_param: isize) -> u16 {
    (key_flags(l_param) % 256) as u16
}

/// The scan code of a key message with the extended-key prefix `0xE0`.
pub open spec fn key_extended_scan_code(l_param: isize) -> u16 {
    (key_scan_code(l_param) + 0xE000) as u16
}

/// Whether a key message comes from an extended key.
pub open spec fn key_is_extended(l_param: isize) -> bool {
    key_flags(l_param) & win32::KF_EXTENDED == win32::KF_EXTENDED
}

/// The state of the key of a key message: released on a key-up, held (with
/// the message's repeat count, the low word of `lParam`) when it was already
/// down, pressed otherwise.
pub open spec fn spec_key_message_state(l_param: isize) -> KeyState {
    if key_flags(l_param) & win32::KF_UP == win32::KF_UP {
        KeyState::Released
    } else if key_flags(l_param) & win32::KF_REPEAT == win32::KF_REPEAT {
        KeyState::Held(((l_param as u32) % 65536) as u16)
    } else {
        KeyState::Pressed
    }
}

/// The key message that a key message's `lParam` stands for, given the virtual
/// keys that the system maps its extended scan code (`extended_vk`) and its
/// scan code (`vk`) to. An extended key whose extended scan code maps to a key
/// takes that key and that scan code.
pub open spec fn spec_keyboard_message(l_param: isize, extended_vk: u16, vk: u16) -> Message {
    if extended_vk != 0 && key_is_extended(l_param) {
        Message::Key {
            key: Key::key_of_virtual_key(extended_vk),
            state: spec_key_message_state(l_param),
            scan_code: key_extended_scan_code(l_param),
            is_extended_key: true,
        }
    } else {
        Message::Key {
            key: Key::key_of_virtual_key(vk),
            state: spec_key_message_state(l_param),
            scan_code: key_scan_code(l_param),
            is_extended_key: key_is_extended(l_param),
        }
    }
}

/// The scan code of a key message and that scan code with the extended-key
/// prefix: the two codes whose virtual keys [`Message::new_keyboard_message`]
/// reads.
pub fn keyboard_scan_codes(l_param: isize) -> (codes: (u16, u16))
    ensures
        codes.0 == key_scan_code(l_param),
        codes.1 == key_extended_scan_code(l_param),
{
    let low = #[verifier::truncate] (l_param as u32);
    let flags = hi_word(low);
    let scan_code = lo_byte(flags) as u16;
    (scan_code, scan_code + 0xE000)
}

impl Message {
    /// The key message for a key message's `lParam` (see
    /// [`spec_keyboard_message`]).
    pub fn new_keyboard_message(l_param: isize, extended_vk: u16, vk: u16) -> (message: Message)
        ensures
            message == spec_keyboard_message(l_param, extended_vk, vk),
    {
        let low = #[verifier::truncate] (l_param as u32);
        let flags = hi_word(low);

        let is_extended_key = is_flag_set_u16(flags, win32::KF_EXTENDED);

        let mut scan_code = lo_byte(flags) as u16;

        let key_code: Key = {
            let extended_scan_code = scan_code + 0xE000;
            let virtual_keycode = if extended_vk != 0 && is_extended_key {
                scan_code = extended_scan_code;
                extended_vk
            } else {
                vk
            };
            Key::from_virtual_key(virtual_keycode)
        };

        let state = {
            let repeat_count = lo_word(low);
            let was_key_down = is_flag_set_u16(flags, win32::KF_REPEAT);
            let is_key_up = is_flag_set_u16(flags, win32::KF_UP);

            if is_key_up {
                KeyState::Released
            } else if was_key_down {
                KeyState::Held(repeat_count)
            } else {
                KeyState::Pressed
            }
        };

        Message::Key { key: key_code, state, scan_code, is_extended_key }
    }
}

// MOUSE MESSAGES
/// The position that a mouse message's `lParam` carries: its low and high
/// words, read as signed values.
pub open spec fn spec_mouse_position(l_param: isize) -> PhysicalPosition {
    PhysicalPosition {
        x: signed16(((l_param as i32) as int) % 65536) as i32,
        y: (((l_param as i32) as int) / 65536) as i32,
    }
}

/// The position that a mouse message's `lParam` carries (see
/// [`spec_mouse_position`]).
pub fn mouse_position(l_param: isize) -> (position: PhysicalPosition)
    ensures
        position == spec_mouse_position(l_param),
{
    let l = #[verifier::truncate] (l_param as i32);
    PhysicalPosition::new(signed_lo_word(l) as i32, signed_hi_word(l) as i32)
}

/// Whether a window message is a double click of a mouse button.
pub open spec fn is_double_click_message(message: u32) -> bool {
    message == win32::WM_LBUTTONDBLCLK || message == win32::WM_MBUTTONDBLCLK || message
        == win32::WM_RBUTTONDBLCLK || message == win32::WM_XBUTTONDBLCLK
}

/// The button of a mouse button message with the given `wParam` flags: left,
/// middle and right by the message; for an X button, back where the high word
/// of the flags names the first X button, forward otherwise.
pub open spec fn spec_message_button(message: u32, flags: u32) -> Mouse {
    if message == win32::WM_LBUTTONDBLCLK || message == win32::WM_LBUTTONDOWN || message
        == win32::WM_LBUTTONUP {
        Mouse::Left
    } else if message == win32::WM_MBUTTONDBLCLK || message == win32::WM_MBUTTONDOWN || message
        == win32::WM_MBUTTONUP {
        Mouse::Middle
    } else if message == win32::WM_RBUTTONDBLCLK || message == win32::WM_RBUTTONDOWN || message
        == win32::WM_RBUTTONUP {
        Mouse::Right
    } else if message == win32::WM_XBUTTONDBLCLK || message == win32::WM_XBUTTONDOWN || message
        == win32::WM_XBUTTONUP {
        if ((flags / 65536) as u16) & win32::XBUTTON1 == win32::XBUTTON1 {
            Mouse::Back
        } else {
            Mouse::Forward
        }
    } else {
        Mouse::Unknown
    }
}

/// Whether a mouse button message reports its button as down: a down or
/// double-click message whose `wParam` flags hold that button down.
pub open spec fn spec_message_button_down(message: u32, flags: u32) -> bool {
    ||| (message == win32::WM_LBUTTONDBLCLK || message == win32::WM_LBUTTONDOWN) && flags
        & win32::MK_LBUTTON == win32::MK_LBUTTON
    ||| (message == win32::WM_MBUTTONDBLCLK || message == win32::WM_MBUTTONDOWN) && flags
        & win32::MK_MBUTTON == win32::MK_MBUTTON
    ||| (message == win32::WM_RBUTTONDBLCLK || message == win32::WM_RBUTTONDOWN) && flags
        & win32::MK_RBUTTON == win32::MK_RBUTTON
    ||| (message == win32::WM_XBUTTONDBLCLK || message == win32::WM_XBUTTONDOWN) && (flags
        & win32::MK_XBUTTON1 == win32::MK_XBUTTON1 || flags & win32::MK_XBUTTON2
        == win32::MK_XBUTTON2)
}

/// The mouse button message that a window message and its parameters stand
/// for.
pub open spec fn spec_mouse_button_message(message: u32, w_param: usize, l_param: isize) -> Message {
    Message::MouseButton {
        button: spec_message_button(message, w_param as u32),
        state: if spec_message_button_down(message, w_param as u32) {
            ButtonState::Pressed
        } else {
            ButtonState::Released
        },
        position: spec_mouse_position(l_param),
        is_double_click: is_double_click_message(message),
    }
}

/// Each mouse button message names its own button, whatever its flags: the
/// left, middle and right down, up and double-click messages name the left,
/// middle and right buttons, an X button message the back or forward button,
/// and no other message names a button. An up message always reports the
/// button released, and a double click is reported only for double-click
/// messages.
pub proof fn lemma_mouse_button_messages_name_their_button(message: u32, flags: u32)
    ensures
        (message == win32::WM_LBUTTONDOWN || message == win32::WM_LBUTTONUP || message
            == win32::WM_LBUTTONDBLCLK) <==> spec_message_button(message, flags) == Mouse::Left,
        (message == win32::WM_MBUTTONDOWN || message == win32::WM_MBUTTONUP || message
            == win32::WM_MBUTTONDBLCLK) <==> spec_message_button(message, flags) == Mouse::Middle,
        (message == win32::WM_RBUTTONDOWN || message == win32::WM_RBUTTONUP || message
            == win32::WM_RBUTTONDBLCLK) <==> spec_message_button(message, flags) == Mouse::Right,
        (message == win32::WM_XBUTTONDOWN || message == win32::WM_XBUTTONUP || message
            == win32::WM_XBUTTONDBLCLK) <==> (spec_message_button(message, flags) == Mouse::Back
            || spec_message_button(message, flags) == Mouse::Forward),
        (message == win32::WM_LBUTTONUP || message == win32::WM_MBUTTONUP || message
            == win32::WM_RBUTTONUP || message == win32::WM_XBUTTONUP) ==> !spec_message_button_down(
            message,
            flags,
        ),
        is_double_click_message(message) <==> (message == win32::WM_LBUTTONDBLCLK || message
            == win32::WM_MBUTTONDBLCLK || message == win32::WM_RBUTTONDBLCLK || message
            == win32::WM_XBUTTONDBLCLK),
{
}

impl Message {
    /// The mouse button message for a window message and its parameters (see
    /// [`spec_mouse_button_message`]).
    pub fn new_mouse_button_message(message: u32, w_param: usize, l_param: isize) -> (msg: Message)
        ensures
            msg == spec_mouse_button_message(message, w_param, l_param),
            msg matches Message::MouseButton { button, state, .. } && {
                &&& (message == win32::WM_LBUTTONDOWN || message == win32::WM_LBUTTONUP
                    || message == win32::WM_LBUTTONDBLCLK) <==> button == Mouse::Left
                &&& (message == win32::WM_MBUTTONDOWN || message == win32::WM_MBUTTONUP
                    || message == win32::WM_MBUTTONDBLCLK) <==> button == Mouse::Middle
                &&& (message == win32::WM_RBUTTONDOWN || message == win32::WM_RBUTTONUP
                    || message == win32::WM_RBUTTONDBLCLK) <==> button == Mouse::Right
                &&& (message == win32::WM_LBUTTONUP || message == win32::WM_MBUTTONUP
                    || message == win32::WM_RBUTTONUP || message == win32::WM_XBUTTONUP)
                    ==> state == ButtonState::Released
            },
    {
        let flags = #[verifier::truncate] (w_param as u32);

        let mouse_code: Mouse = if message == win32::WM_LBUTTONDBLCLK || message
            == win32::WM_LBUTTONDOWN || message == win32::WM_LBUTTONUP {
            Mouse::Left
        } else if message == win32::WM_MBUTTONDBLCLK || message == win32::WM_MBUTTONDOWN
            || message == win32::WM_MBUTTONUP {
            Mouse::Middle
        } else if message == win32::WM_RBUTTONDBLCLK || message == win32::WM_RBUTTONDOWN
            || message == win32::WM_RBUTTONUP {
            Mouse::Right
        } else if message == win32::WM_XBUTTONDBLCLK || message == win32::WM_XBUTTONDOWN
            || message == win32::WM_XBUTTONUP {
            let hi_flags = hi_word(flags);
            if (hi_flags & win32::XBUTTON1) == win32::XBUTTON1 {
                Mouse::Back
            } else {
                Mouse::Forward
            }
        } else {
            Mouse::Unknown
        };

        let is_double_click = message == win32::WM_LBUTTONDBLCLK || message
            == win32::WM_MBUTTONDBLCLK || message == win32::WM_RBUTTONDBLCLK || message
            == win32::WM_XBUTTONDBLCLK;

        let state = {
            let is_l_down = is_flag_set(flags, win32::MK_LBUTTON);
            let is_m_down = is_flag_set(flags, win32::MK_MBUTTON);
            let is_r_down = is_flag_set(flags, win32::MK_RBUTTON);
            let is_x1_down = is_flag_set(flags, win32::MK_XBUTTON1);
            let is_x2_down = is_flag_set(flags, win32::MK_XBUTTON2);

            let is_down = if (message == win32::WM_LBUTTONDBLCLK || message
                == win32::WM_LBUTTONDOWN) && is_l_down {
                true
            } else if (message == win32::WM_MBUTTONDBLCLK || message == win32::WM_MBUTTONDOWN)
                && is_m_down {
                true
            } else if (message == win32::WM_RBUTTONDBLCLK || message == win32::WM_RBUTTONDOWN)
                && is_r_down {
                true
            } else if (message == win32::WM_XBUTTONDBLCLK || message == win32::WM_XBUTTONDOWN)
                && (is_x1_down || is_x2_down) {
                true
            } else {
                false
            };

            if is_down {
                ButtonState::Pressed
            } else {
                ButtonState::Released
            }
        };

        let position = mouse_position(l_param);

        Message::MouseButton { button: mouse_code, state, position, is_double_click }
    }
}

/// How the cursor moved, given the window's client area (`None` where it could
/// not be read), whether the cursor was inside the window, and the cursor's new
/// position in client coordinates: it entered where it was outside and now is
/// inside the area, it left where it was inside and now is outside, and in all
/// other cases (and where the area is unknown) it is inside.
pub fn get_cursor_move_kind(
    client_rect: Option<Rect>,
    mouse_was_inside_window: bool,
    x: i32,
    y: i32,
) -> (kind: CursorMoveKind)
    ensures
        kind == (match client_rect {
            None => CursorMoveKind::Inside,
            Some(rect) => if !mouse_was_inside_window && rect.spec_contains(x, y) {
                CursorMoveKind::Entered
            } else if mouse_was_inside_window && !rect.spec_contains(x, y) {
                CursorMoveKind::Left
            } else {
                CursorMoveKind::Inside
            },
        }),
{
    let rect = match client_rect {
        Some(rect) => rect,
        None => {
            return CursorMoveKind::Inside;  // exit early if GetClientRect failed
        },
    };

    let inside = rect.contains(x, y);

    if !mouse_was_inside_window && inside {
        CursorMoveKind::Entered
    } else if mouse_was_inside_window && !inside {
        CursorMoveKind::Left
    } else {
        CursorMoveKind::Inside
    }
}

/// What a window message with the given id leads the window procedure to do.
#[derive(Debug, Copy, Clone, PartialEq, Eq, Structural)]
pub enum Route {
    /// A [`Command`] posted by the main thread.
    Command,
    /// Before the window's state exists: non-client creation, creation,
    /// destruction.
    NcCreate,
    Create,
    Destroy,
    /// While the window's state exists.
    SetCursor,
    Close,
    Paint,
    Size,
    Move,
    WindowPosChanged,
    NcActivate,
    SetFocus,
    KillFocus,
    AppCommand,
    SysCommand,
    DpiChanged,
    RawInput,
    Char,
    Key,
    MouseMove,
    MouseLeave,
    MouseWheel,
    MouseHWheel,
    MouseButton,
    /// Any other message goes to the default window procedure.
    Default,
}

/// The route of every message but a command, while the window's state exists.
pub open spec fn spec_window_route(id: u32) -> Route {
    if id == win32::WM_SETCURSOR {
        Route::SetCursor
    } else if id == win32::WM_CLOSE {
        Route::Close
    } else if id == win32::WM_PAINT {
        Route::Paint
    } else if id == win32::WM_SIZE {
        Route::Size
    } else if id == win32::WM_MOVE {
        Route::Move
    } else if id == win32::WM_WINDOWPOSCHANGED {
        Route::WindowPosChanged
    } else if id == win32::WM_NCACTIVATE {
        Route::NcActivate
    } else if id == win32::WM_SETFOCUS {
        Route::SetFocus
    } else if id == win32::WM_KILLFOCUS {
        Route::KillFocus
    } else if id == win32::WM_COMMAND {
        Route::AppCommand
    } else if id == win32::WM_SYSCOMMAND {
        Route::SysCommand
    } else if id == win32::WM_DPICHANGED {
        Route::DpiChanged
    } else if id == win32::WM_INPUT {
        Route::RawInput
    } else if id == win32::WM_CHAR {
        Route::Char
    } else if id == win32::WM_KEYDOWN || id == win32::WM_SYSKEYDOWN || id == win32::WM_KEYUP
        || id == win32::WM_SYSKEYUP {
        Route::Key
    } else if id == win32::WM_MOUSEMOVE {
        Route::MouseMove
    } else if id == win32::WM_MOUSELEAVE {
        Route::MouseLeave
    } else if id == win32::WM_MOUSEWHEEL {
        Route::MouseWheel
    } else if id == win32::WM_MOUSEHWHEEL {
        Route::MouseHWheel
    } else if win32::WM_MOUSEFIRST <= id <= win32::WM_MOUSELAST {
        Route::MouseButton
    } else {
        Route::Default
    }
}

/// Each window message that the window handles takes the route named after
/// it, and no other message takes that route: a focus loss goes to the focus
/// loss handler, a focus gain to the focus gain handler, each key message to
/// the key handler, each mouse button message to the button handler.
pub proof fn lemma_routes_name_their_message(id: u32)
    ensures
        (id == win32::WM_SETCURSOR) <==> spec_window_route(id) == Route::SetCursor,
        (id == win32::WM_CLOSE) <==> spec_window_route(id) == Route::Close,
        (id == win32::WM_PAINT) <==> spec_window_route(id) == Route::Paint,
        (id == win32::WM_SIZE) <==> spec_window_route(id) == Route::Size,
        (id == win32::WM_MOVE) <==> spec_window_route(id) == Route::Move,
        (id == win32::WM_WINDOWPOSCHANGED) <==> spec_window_route(id) == Route::WindowPosChanged,
        (id == win32::WM_NCACTIVATE) <==> spec_window_route(id) == Route::NcActivate,
        (id == win32::WM_SETFOCUS) <==> spec_window_route(id) == Route::SetFocus,
        (id == win32::WM_KILLFOCUS) <==> spec_window_route(id) == Route::KillFocus,
        (id == win32::WM_COMMAND) <==> spec_window_route(id) == Route::AppCommand,
        (id == win32::WM_SYSCOMMAND) <==> spec_window_route(id) == Route::SysCommand,
        (id == win32::WM_DPICHANGED) <==> spec_window_route(id) == Route::DpiChanged,
        (id == win32::WM_INPUT) <==> spec_window_route(id) == Route::RawInput,
        (id == win32::WM_CHAR) <==> spec_window_route(id) == Route::Char,
        (id == win32::WM_MOUSEMOVE) <==> spec_window_route(id) == Route::MouseMove,
        (id == win32::WM_MOUSELEAVE) <==> spec_window_route(id) == Route::MouseLeave,
        (id == win32::WM_MOUSEWHEEL) <==> spec_window_route(id) == Route::MouseWheel,
        (id == win32::WM_MOUSEHWHEEL) <==> spec_window_route(id) == Route::MouseHWheel,
        (id == win32::WM_KEYDOWN || id == win32::WM_KEYUP || id == win32::WM_SYSKEYDOWN || id
            == win32::WM_SYSKEYUP) <==> spec_window_route(id) == Route::Key,
        (id == win32::WM_LBUTTONDOWN || id == win32::WM_LBUTTONUP || id == win32::WM_LBUTTONDBLCLK || id == win32::WM_RBUTTONDOWN || id == win32::WM_RBUTTONUP || id == win32::WM_RBUTTONDBLCLK || id == win32::WM_MBUTTONDOWN || id == win32::WM_MBUTTONUP || id == win32::WM_MBUTTONDBLCLK || id == win32::WM_XBUTTONDOWN || id == win32::WM_XBUTTONUP || id == win32::WM_XBUTTONDBLCLK) ==> spec_window_route(id) == Route::MouseButton,
{
}

/// The route of the message `id`: a command in any case; creation and
/// destruction only before the window's state exists (`has_window` false);
/// the window's own messages only while it exists; the default otherwise.
pub fn route(id: u32, has_window: bool) -> (r: Route)
    ensures
        r == (if id == COMMAND_MESSAGE_ID {
            Route::Command
        } else if !has_window {
            if id == win32::WM_NCCREATE {
                Route::NcCreate
            } else if id == win32::WM_CREATE {
                Route::Create
            } else if id == win32::WM_DESTROY {
                Route::Destroy
            } else {
                Route::Default
            }
        } else {
            spec_window_route(id)
        }),
        has_window && id == win32::WM_SETCURSOR ==> r == Route::SetCursor,
        has_window && id == win32::WM_CLOSE ==> r == Route::Close,
        has_window && id == win32::WM_PAINT ==> r == Route::Paint,
        has_window && id == win32::WM_SIZE ==> r == Route::Size,
        has_window && id == win32::WM_MOVE ==> r == Route::Move,
        has_window && id == win32::WM_WINDOWPOSCHANGED ==> r == Route::WindowPosChanged,
        has_window && id == win32::WM_NCACTIVATE ==> r == Route::NcActivate,
        has_window && id == win32::WM_SETFOCUS ==> r == Route::SetFocus,
        has_window && id == win32::WM_KILLFOCUS ==> r == Route::KillFocus,
        has_window && id == win32::WM_COMMAND ==> r == Route::AppCommand,
        has_window && id == win32::WM_SYSCOMMAND ==> r == Route::SysCommand,
        has_window && id == win32::WM_DPICHANGED ==> r == Route::DpiChanged,
        has_window && id == win32::WM_INPUT ==> r == Route::RawInput,
        has_window && id == win32::WM_CHAR ==> r == Route::Char,
        has_window && id == win32::WM_MOUSEMOVE ==> r == Route::MouseMove,
        has_window && id == win32::WM_MOUSELEAVE ==> r == Route::MouseLeave,
        has_window && id == win32::WM_MOUSEWHEEL ==> r == Route::MouseWheel,
        has_window && id == win32::WM_MOUSEHWHEEL ==> r == Route::MouseHWheel,
        has_window && (id == win32::WM_KEYDOWN || id == win32::WM_KEYUP || id == win32::WM_SYSKEYDOWN || id
            == win32::WM_SYSKEYUP) ==> r == Route::Key,
        has_window && (id == win32::WM_LBUTTONDOWN || id == win32::WM_LBUTTONUP || id == win32::WM_LBUTTONDBLCLK || id == win32::WM_RBUTTONDOWN || id == win32::WM_RBUTTONUP || id == win32::WM_RBUTTONDBLCLK || id == win32::WM_MBUTTONDOWN || id == win32::WM_MBUTTONUP || id == win32::WM_MBUTTONDBLCLK || id == win32::WM_XBUTTONDOWN || id == win32::WM_XBUTTONUP || id == win32::WM_XBUTTONDBLCLK) ==> r == Route::MouseButton,
{
    if id == COMMAND_MESSAGE_ID {
        return Route::Command;
    }
    if !has_window {
        return if id == win32::WM_NCCREATE {
            Route::NcCreate
        } else if id == win32::WM_CREATE {
            Route::Create
        } else if id == win32::WM_DESTROY {
            Route::Destroy
        } else {
            Route::Default
        };
    }
    if id == win32::WM_SETCURSOR {
        Route::SetCursor
    } else if id == win32::WM_CLOSE {
        Route::Close
    } else if id == win32::WM_PAINT {
        Route::Paint
    } else if id == win32::WM_SIZE {
        Route::Size
    } else if id == win32::WM_MOVE {
        Route::Move
    } else if id == win32::WM_WINDOWPOSCHANGED {
        Route::WindowPosChanged
    } else if id == win32::WM_NCACTIVATE {
        Route::NcActivate
    } else if id == win32::WM_SETFOCUS {
        Route::SetFocus
    } else if id == win32::WM_KILLFOCUS {
        Route::KillFocus
    } else if id == win32::WM_COMMAND {
        Route::AppCommand
    } else if id == win32::WM_SYSCOMMAND {
        Route::SysCommand
    } else if id == win32::WM_DPICHANGED {
        Route::DpiChanged
    } else if id == win32::WM_INPUT {
        Route::RawInput
    } else if id == win32::WM_CHAR {
        Route::Char
    } else if id == win32::WM_KEYDOWN || id == win32::WM_SYSKEYDOWN || id == win32::WM_KEYUP
        || id == win32::WM_SYSKEYUP {
        Route::Key
    } else if id == win32::WM_MOUSEMOVE {
        Route::MouseMove
    } else if id == win32::WM_MOUSELEAVE {
        Route::MouseLeave
    } else if id == win32::WM_MOUSEWHEEL {
        Route::MouseWheel
    } else if id == win32::WM_MOUSEHWHEEL {
        Route::MouseHWheel
    } else if win32::WM_MOUSEFIRST <= id && id <= win32::WM_MOUSELAST {
        Route::MouseButton
    } else {
        Route::Default
    }
}

} // verus!

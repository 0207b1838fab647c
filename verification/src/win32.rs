//! Numeric values of the Win32 constants that the library's decisions read.
//!
//! These are the values that the Win32 headers define; the tests compare each
//! one with the `windows` crate.

use vstd::prelude::*;

verus! {

// Window styles.
pub const WS_POPUP: u32 = 0x8000_0000;
pub const WS_CLIPCHILDREN: u32 = 0x0200_0000;
pub const WS_CLIPSIBLINGS: u32 = 0x0400_0000;
pub const WS_VISIBLE: u32 = 0x1000_0000;
pub const WS_OVERLAPPEDWINDOW: u32 = 0x00CF_0000;

// Extended window styles.
pub const WS_EX_APPWINDOW: u32 = 0x0004_0000;
pub const WS_EX_OVERLAPPEDWINDOW: u32 = 0x0000_0300;

// Window messages.
pub const WM_CREATE: u32 = 0x0001;
pub const WM_DESTROY: u32 = 0x0002;
pub const WM_MOVE: u32 = 0x0003;
pub const WM_SIZE: u32 = 0x0005;
pub const WM_SETFOCUS: u32 = 0x0007;
pub const WM_KILLFOCUS: u32 = 0x0008;
pub const WM_PAINT: u32 = 0x000F;
pub const WM_CLOSE: u32 = 0x0010;
pub const WM_SETCURSOR: u32 = 0x0020;
pub const WM_WINDOWPOSCHANGED: u32 = 0x0047;
pub const WM_NCCREATE: u32 = 0x0081;
pub const WM_NCACTIVATE: u32 = 0x0086;
pub const WM_INPUT: u32 = 0x00FF;
pub const WM_KEYFIRST: u32 = 0x0100;
pub const WM_KEYDOWN: u32 = 0x0100;
pub const WM_KEYUP: u32 = 0x0101;
pub const WM_CHAR: u32 = 0x0102;
pub const WM_SYSKEYDOWN: u32 = 0x0104;
pub const WM_SYSKEYUP: u32 = 0x0105;
pub const WM_KEYLAST: u32 = 0x0109;
pub const WM_COMMAND: u32 = 0x0111;
pub const WM_SYSCOMMAND: u32 = 0x0112;
pub const WM_MOUSEFIRST: u32 = 0x0200;
pub const WM_MOUSEMOVE: u32 = 0x0200;
pub const WM_LBUTTONDOWN: u32 = 0x0201;
pub const WM_LBUTTONUP: u32 = 0x0202;
pub const WM_LBUTTONDBLCLK: u32 = 0x0203;
pub const WM_RBUTTONDOWN: u32 = 0x0204;
pub const WM_RBUTTONUP: u32 = 0x0205;
pub const WM_RBUTTONDBLCLK: u32 = 0x0206;
pub const WM_MBUTTONDOWN: u32 = 0x0207;
pub const WM_MBUTTONUP: u32 = 0x0208;
pub const WM_MBUTTONDBLCLK: u32 = 0x0209;
pub const WM_MOUSEWHEEL: u32 = 0x020A;
pub const WM_XBUTTONDOWN: u32 = 0x020B;
pub const WM_XBUTTONUP: u32 = 0x020C;
pub const WM_XBUTTONDBLCLK: u32 = 0x020D;
pub const WM_MOUSEHWHEEL: u32 = 0x020E;
pub const WM_MOUSELAST: u32 = 0x020E;
pub const WM_SIZING: u32 = 0x0214;
pub const WM_MOVING: u32 = 0x0216;
pub const WM_ENTERSIZEMOVE: u32 = 0x0231;
pub const WM_EXITSIZEMOVE: u32 = 0x0232;
pub const WM_MOUSELEAVE: u32 = 0x02A3;
pub const WM_DPICHANGED: u32 = 0x02E0;
pub const WM_USER: u32 = 0x0400;
pub const WM_APP: u32 = 0x8000;

// Message parameter values.
pub const SIZE_MINIMIZED: u32 = 1;
pub const SIZE_MAXIMIZED: u32 = 2;
pub const SC_MINIMIZE: u32 = 0xF020;
pub const SC_RESTORE: u32 = 0xF120;
pub const HTCLIENT: u32 = 1;
pub const WHEEL_DELTA: u32 = 120;
pub const RIM_INPUT: u32 = 0;
pub const XBUTTON1: u16 = 0x0001;
pub const XBUTTON2: u16 = 0x0002;

// Keystroke flags (the high word of a key message's `lParam`).
pub const KF_EXTENDED: u16 = 0x0100;
pub const KF_REPEAT: u16 = 0x4000;
pub const KF_UP: u16 = 0x8000;

// Modifier-key flags of a mouse message's `wParam`.
pub const MK_LBUTTON: u32 = 0x0001;
pub const MK_RBUTTON: u32 = 0x0002;
pub const MK_MBUTTON: u32 = 0x0010;
pub const MK_XBUTTON1: u32 = 0x0020;
pub const MK_XBUTTON2: u32 = 0x0040;

// Raw input.
pub const RIM_TYPEMOUSE: u32 = 0;
pub const RIM_TYPEKEYBOARD: u32 = 1;
pub const MOUSE_MOVE_RELATIVE: u16 = 0;
pub const RI_KEY_E0: u16 = 2;
pub const RI_KEY_E1: u16 = 4;
pub const RI_MOUSE_BUTTON_1_DOWN: u32 = 0x0001;
pub const RI_MOUSE_BUTTON_1_UP: u32 = 0x0002;
pub const RI_MOUSE_BUTTON_2_DOWN: u32 = 0x0004;
pub const RI_MOUSE_BUTTON_2_UP: u32 = 0x0008;
pub const RI_MOUSE_BUTTON_3_DOWN: u32 = 0x0010;
pub const RI_MOUSE_BUTTON_3_UP: u32 = 0x0020;
pub const RI_MOUSE_BUTTON_4_DOWN: u32 = 0x0040;
pub const RI_MOUSE_BUTTON_4_UP: u32 = 0x0080;
pub const RI_MOUSE_BUTTON_5_DOWN: u32 = 0x0100;
pub const RI_MOUSE_BUTTON_5_UP: u32 = 0x0200;

// Window creation.
pub const CW_USEDEFAULT: i32 = -2147483648i32;

} // verus!

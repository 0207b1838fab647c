//! Keyboard keys and their Win32 virtual-key codes.

use vstd::prelude::*;
use vstd::std_specs::convert::{FromSpec, FromSpecImpl};
use windows::Win32::UI::Input::KeyboardAndMouse::VIRTUAL_KEY;

use crate::utilities::is_flag_set_u16;
use crate::win32;

verus! {

/// A key of the keyboard.
#[derive(Debug, Copy, Clone, Eq, PartialEq, Structural, Hash)]
pub enum Key {
    Unknown,
    Tab,
    Enter,
    Space,
    Apostrophe,
    Comma,
    Minus,
    Period,
    ForwardSlash,
    _0,
    _1,
    _2,
    _3,
    _4,
    _5,
    _6,
    _7,
    _8,
    _9,
    Semicolon,
    Equals,
    A,
    B,
    C,
    D,
    E,
    F,
    G,
    H,
    I,
    J,
    K,
    L,
    M,
    N,
    O,
    P,
    Q,
    R,
    S,
    T,
    U,
    V,
    W,
    X,
    Y,
    Z,
    LeftBracket,
    BackSlash,
    RightBracket,
    Accent,
    Escape,
    NumEnter,
    Backspace,
    Insert,
    Delete,
    Up,
    Down,
    Left,
    Right,
    PageUp,
    PageDown,
    Home,
    End,
    CapsLock,
    ScrollLock,
    NumLock,
    PrintScreen,
    Pause,
    Num0,
    Num1,
    Num2,
    Num3,
    Num4,
    Num5,
    Num6,
    Num7,
    Num8,
    Num9,
    F1,
    F2,
    F3,
    F4,
    F5,
    F6,
    F7,
    F8,
    F9,
    F10,
    F11,
    F12,
    F13,
    F14,
    F15,
    F16,
    F17,
    F18,
    F19,
    F20,
    F21,
    F22,
    F23,
    F24,
    NumPeriod,
    NumComma,
    NumPlus,
    NumMinus,
    NumDivide,
    NumMultiply,
    NumEquals,
    LeftShift,
    LeftControl,
    LeftAlt,
    LeftSuper,
    RightShift,
    RightControl,
    RightAlt,
    RightSuper,
    Menu,
    AbntC1,
    AbntC2,
    Ax,
    Convert,
    Kana,
    Kanji,
    Mail,
    MediaPlayPause,
    MediaStop,
    MediaSelect,
    MediaNextTrack,
    MediaPrevTrack,
    VolumeDown,
    VolumeUp,
    VolumeMute,
    NoConvert,
    OEM102,
    Sleep,
    NoName,
    WebBack,
    WebFavorites,
    WebForward,
    WebHome,
    WebRefresh,
    WebSearch,
    WebStop,
    Copy,
}

/// The virtual-key code of the NumLock key.
pub const VK_NUMLOCK: u16 = 144;
/// The virtual-key code of the Shift key.
pub const VK_SHIFT: u16 = 16;

impl Key {
    /// The key's number: its ASCII code for the keys that have one, and a
    /// number from 256 on, in the order of the declaration, for the others.
    pub open spec fn spec_code(self) -> u16 {
        match self {
            Key::Unknown => 0,
            Key::Tab => 9,
            Key::Enter => 10,
            Key::Space => 32,
            Key::Apostrophe => 39,
            Key::Comma => 44,
            Key::Minus => 45,
            Key::Period => 46,
            Key::ForwardSlash => 47,
            Key::_0 => 48,
            Key::_1 => 49,
            Key::_2 => 50,
            Key::_3 => 51,
            Key::_4 => 52,
            Key::_5 => 53,
            Key::_6 => 54,
            Key::_7 => 55,
            Key::_8 => 56,
            Key::_9 => 57,
            Key::Semicolon => 59,
            Key::Equals => 61,
            Key::A => 65,
            Key::B => 66,
            Key::C => 67,
            Key::D => 68,
            Key::E => 69,
            Key::F => 70,
            Key::G => 71,
            Key::H => 72,
            Key::I => 73,
            Key::J => 74,
            Key::K => 75,
            Key::L => 76,
            Key::M => 77,
            Key::N => 78,
            Key::O => 79,
            Key::P => 80,
            Key::Q => 81,
            Key::R => 82,
            Key::S => 83,
            Key::T => 84,
            Key::U => 85,
            Key::V => 86,
            Key::W => 87,
            Key::X => 88,
            Key::Y => 89,
            Key::Z => 90,
            Key::LeftBracket => 91,
            Key::BackSlash => 92,
            Key::RightBracket => 93,
            Key::Accent => 96,
            Key::Escape => 256,
            Key::NumEnter => 257,
            Key::Backspace => 258,
            Key::Insert => 259,
            Key::Delete => 260,
            Key::Up => 261,
            Key::Down => 262,
            Key::Left => 263,
            Key::Right => 264,
            Key::PageUp => 265,
            Key::PageDown => 266,
            Key::Home => 267,
            Key::End => 268,
            Key::CapsLock => 269,
            Key::ScrollLock => 270,
            Key::NumLock => 271,
            Key::PrintScreen => 272,
            Key::Pause => 273,
            Key::Num0 => 274,
            Key::Num1 => 275,
            Key::Num2 => 276,
            Key::Num3 => 277,
            Key::Num4 => 278,
            Key::Num5 => 279,
            Key::Num6 => 280,
            Key::Num7 => 281,
            Key::Num8 => 282,
            Key::Num9 => 283,
            Key::F1 => 284,
            Key::F2 => 285,
            Key::F3 => 286,
            Key::F4 => 287,
            Key::F5 => 288,
            Key::F6 => 289,
            Key::F7 => 290,
            Key::F8 => 291,
            Key::F9 => 292,
            Key::F10 => 293,
            Key::F11 => 294,
            Key::F12 => 295,
            Key::F13 => 296,
            Key::F14 => 297,
            Key::F15 => 298,
            Key::F16 => 299,
            Key::F17 => 300,
            Key::F18 => 301,
            Key::F19 => 302,
            Key::F20 => 303,
            Key::F21 => 304,
            Key::F22 => 305,
            Key::F23 => 306,
            Key::F24 => 307,
            Key::NumPeriod => 308,
            Key::NumComma => 309,
            Key::NumPlus => 310,
            Key::NumMinus => 311,
            Key::NumDivide => 312,
            Key::NumMultiply => 313,
            Key::NumEquals => 314,
            Key::LeftShift => 315,
            Key::LeftControl => 316,
            Key::LeftAlt => 317,
            Key::LeftSuper => 318,
            Key::RightShift => 319,
            Key::RightControl => 320,
            Key::RightAlt => 321,
            Key::RightSuper => 322,
            Key::Menu => 323,
            Key::AbntC1 => 324,
            Key::AbntC2 => 325,
            Key::Ax => 326,
            Key::Convert => 327,
            Key::Kana => 328,
            Key::Kanji => 329,
            Key::Mail => 330,
            Key::MediaPlayPause => 331,
            Key::MediaStop => 332,
            Key::MediaSelect => 333,
            Key::MediaNextTrack => 334,
            Key::MediaPrevTrack => 335,
            Key::VolumeDown => 336,
            Key::VolumeUp => 337,
            Key::VolumeMute => 338,
            Key::NoConvert => 339,
            Key::OEM102 => 340,
            Key::Sleep => 341,
            Key::NoName => 342,
            Key::WebBack => 343,
            Key::WebFavorites => 344,
            Key::WebForward => 345,
            Key::WebHome => 346,
            Key::WebRefresh => 347,
            Key::WebSearch => 348,
            Key::WebStop => 349,
            Key::Copy => 350,
        }
    }

    /// The key whose number is `code` (see [`Key::spec_code`]), or
    /// `Key::Unknown` where no key has it.
    closed spec fn key_of_code(code: u16) -> Key {
        match code {
            0 => Key::Unknown,
            9 => Key::Tab,
            10 => Key::Enter,
            32 => Key::Space,
            39 => Key::Apostrophe,
            44 => Key::Comma,
            45 => Key::Minus,
            46 => Key::Period,
            47 => Key::ForwardSlash,
            48 => Key::_0,
            49 => Key::_1,
            50 => Key::_2,
            51 => Key::_3,
            52 => Key::_4,
            53 => Key::_5,
            54 => Key::_6,
            55 => Key::_7,
            56 => Key::_8,
            57 => Key::_9,
            59 => Key::Semicolon,
            61 => Key::Equals,
            65 => Key::A,
            66 => Key::B,
            67 => Key::C,
            68 => Key::D,
            69 => Key::E,
            70 => Key::F,
            71 => Key::G,
            72 => Key::H,
            73 => Key::I,
            74 => Key::J,
            75 => Key::K,
            76 => Key::L,
            77 => Key::M,
            78 => Key::N,
            79 => Key::O,
            80 => Key::P,
            81 => Key::Q,
            82 => Key::R,
            83 => Key::S,
            84 => Key::T,
            85 => Key::U,
            86 => Key::V,
            87 => Key::W,
            88 => Key::X,
            89 => Key::Y,
            90 => Key::Z,
            91 => Key::LeftBracket,
            92 => Key::BackSlash,
            93 => Key::RightBracket,
            96 => Key::Accent,
            256 => Key::Escape,
            257 => Key::NumEnter,
            258 => Key::Backspace,
            259 => Key::Insert,
            260 => Key::Delete,
            261 => Key::Up,
            262 => Key::Down,
            263 => Key::Left,
            264 => Key::Right,
            265 => Key::PageUp,
            266 => Key::PageDown,
            267 => Key::Home,
            268 => Key::End,
            269 => Key::CapsLock,
            270 => Key::ScrollLock,
            271 => Key::NumLock,
            272 => Key::PrintScreen,
            273 => Key::Pause,
            274 => Key::Num0,
            275 => Key::Num1,
            276 => Key::Num2,
            277 => Key::Num3,
            278 => Key::Num4,
            279 => Key::Num5,
            280 => Key::Num6,
            281 => Key::Num7,
            282 => Key::Num8,
            283 => Key::Num9,
            284 => Key::F1,
            285 => Key::F2,
            286 => Key::F3,
            287 => Key::F4,
            288 => Key::F5,
            289 => Key::F6,
            290 => Key::F7,
            291 => Key::F8,
            292 => Key::F9,
            293 => Key::F10,
            294 => Key::F11,
            295 => Key::F12,
            296 => Key::F13,
            297 => Key::F14,
            298 => Key::F15,
            299 => Key::F16,
            300 => Key::F17,
            301 => Key::F18,
            302 => Key::F19,
            303 => Key::F20,
            304 => Key::F21,
            305 => Key::F22,
            306 => Key::F23,
            307 => Key::F24,
            308 => Key::NumPeriod,
            309 => Key::NumComma,
            310 => Key::NumPlus,
            311 => Key::NumMinus,
            312 => Key::NumDivide,
            313 => Key::NumMultiply,
            314 => Key::NumEquals,
            315 => Key::LeftShift,
            316 => Key::LeftControl,
            317 => Key::LeftAlt,
            318 => Key::LeftSuper,
            319 => Key::RightShift,
            320 => Key::RightControl,
            321 => Key::RightAlt,
            322 => Key::RightSuper,
            323 => Key::Menu,
            324 => Key::AbntC1,
            325 => Key::AbntC2,
            326 => Key::Ax,
            327 => Key::Convert,
            328 => Key::Kana,
            329 => Key::Kanji,
            330 => Key::Mail,
            331 => Key::MediaPlayPause,
            332 => Key::MediaStop,
            333 => Key::MediaSelect,
            334 => Key::MediaNextTrack,
            335 => Key::MediaPrevTrack,
            336 => Key::VolumeDown,
            337 => Key::VolumeUp,
            338 => Key::VolumeMute,
            339 => Key::NoConvert,
            340 => Key::OEM102,
            341 => Key::Sleep,
            342 => Key::NoName,
            343 => Key::WebBack,
            344 => Key::WebFavorites,
            345 => Key::WebForward,
            346 => Key::WebHome,
            347 => Key::WebRefresh,
            348 => Key::WebSearch,
            349 => Key::WebStop,
            350 => Key::Copy,
            _ => Key::Unknown,
        }
    }

    /// A key's number identifies the key: two keys with the same number are
    /// the same key.
    pub proof fn lemma_code_identifies_key(a: Key, b: Key)
        ensures
            a.spec_code() == b.spec_code() ==> a == b,
    {
        Key::lemma_key_of_code(a);
        Key::lemma_key_of_code(b);
    }

    proof fn lemma_key_of_code(k: Key)
        ensures
            Key::key_of_code(k.spec_code()) == k,
    {
        match k {
            Key::Unknown => {},
            Key::Tab => {},
            Key::Enter => {},
            Key::Space => {},
            Key::Apostrophe => {},
            Key::Comma => {},
            Key::Minus => {},
            Key::Period => {},
            Key::ForwardSlash => {},
            Key::_0 => {},
            Key::_1 => {},
            Key::_2 => {},
            Key::_3 => {},
            Key::_4 => {},
            Key::_5 => {},
            Key::_6 => {},
            Key::_7 => {},
            Key::_8 => {},
            Key::_9 => {},
            Key::Semicolon => {},
            Key::Equals => {},
            Key::A => {},
            Key::B => {},
            Key::C => {},
            Key::D => {},
            Key::E => {},
            Key::F => {},
            Key::G => {},
            Key::H => {},
            Key::I => {},
            Key::J => {},
            Key::K => {},
            Key::L => {},
            Key::M => {},
            Key::N => {},
            Key::O => {},
            Key::P => {},
            Key::Q => {},
            Key::R => {},
            Key::S => {},
            Key::T => {},
            Key::U => {},
            Key::V => {},
            Key::W => {},
            Key::X => {},
            Key::Y => {},
            Key::Z => {},
            Key::LeftBracket => {},
            Key::BackSlash => {},
            Key::RightBracket => {},
            Key::Accent => {},
            Key::Escape => {},
            Key::NumEnter => {},
            Key::Backspace => {},
            Key::Insert => {},
            Key::Delete => {},
            Key::Up => {},
            Key::Down => {},
            Key::Left => {},
            Key::Right => {},
            Key::PageUp => {},
            Key::PageDown => {},
            Key::Home => {},
            Key::End => {},
            Key::CapsLock => {},
            Key::ScrollLock => {},
            Key::NumLock => {},
            Key::PrintScreen => {},
            Key::Pause => {},
            Key::Num0 => {},
            Key::Num1 => {},
            Key::Num2 => {},
            Key::Num3 => {},
            Key::Num4 => {},
            Key::Num5 => {},
            Key::Num6 => {},
            Key::Num7 => {},
            Key::Num8 => {},
            Key::Num9 => {},
            Key::F1 => {},
            Key::F2 => {},
            Key::F3 => {},
            Key::F4 => {},
            Key::F5 => {},
            Key::F6 => {},
            Key::F7 => {},
            Key::F8 => {},
            Key::F9 => {},
            Key::F10 => {},
            Key::F11 => {},
            Key::F12 => {},
            Key::F13 => {},
            Key::F14 => {},
            Key::F15 => {},
            Key::F16 => {},
            Key::F17 => {},
            Key::F18 => {},
            Key::F19 => {},
            Key::F20 => {},
            Key::F21 => {},
            Key::F22 => {},
            Key::F23 => {},
            Key::F24 => {},
            Key::NumPeriod => {},
            Key::NumComma => {},
            Key::NumPlus => {},
            Key::NumMinus => {},
            Key::NumDivide => {},
            Key::NumMultiply => {},
            Key::NumEquals => {},
            Key::LeftShift => {},
            Key::LeftControl => {},
            Key::LeftAlt => {},
            Key::LeftSuper => {},
            Key::RightShift => {},
            Key::RightControl => {},
            Key::RightAlt => {},
            Key::RightSuper => {},
            Key::Menu => {},
            Key::AbntC1 => {},
            Key::AbntC2 => {},
            Key::Ax => {},
            Key::Convert => {},
            Key::Kana => {},
            Key::Kanji => {},
            Key::Mail => {},
            Key::MediaPlayPause => {},
            Key::MediaStop => {},
            Key::MediaSelect => {},
            Key::MediaNextTrack => {},
            Key::MediaPrevTrack => {},
            Key::VolumeDown => {},
            Key::VolumeUp => {},
            Key::VolumeMute => {},
            Key::NoConvert => {},
            Key::OEM102 => {},
            Key::Sleep => {},
            Key::NoName => {},
            Key::WebBack => {},
            Key::WebFavorites => {},
            Key::WebForward => {},
            Key::WebHome => {},
            Key::WebRefresh => {},
            Key::WebSearch => {},
            Key::WebStop => {},
            Key::Copy => {},
        }
    }

    /// The key's number (see [`Key::spec_code`]).
    pub fn code(self) -> (code: u16)
        ensures
            code == self.spec_code(),
    {
        match self {
            Key::Unknown => 0,
            Key::Tab => 9,
            Key::Enter => 10,
            Key::Space => 32,
            Key::Apostrophe => 39,
            Key::Comma => 44,
            Key::Minus => 45,
            Key::Period => 46,
            Key::ForwardSlash => 47,
            Key::_0 => 48,
            Key::_1 => 49,
            Key::_2 => 50,
            Key::_3 => 51,
            Key::_4 => 52,
            Key::_5 => 53,
            Key::_6 => 54,
            Key::_7 => 55,
            Key::_8 => 56,
            Key::_9 => 57,
            Key::Semicolon => 59,
            Key::Equals => 61,
            Key::A => 65,
            Key::B => 66,
            Key::C => 67,
            Key::D => 68,
            Key::E => 69,
            Key::F => 70,
            Key::G => 71,
            Key::H => 72,
            Key::I => 73,
            Key::J => 74,
            Key::K => 75,
            Key::L => 76,
            Key::M => 77,
            Key::N => 78,
            Key::O => 79,
            Key::P => 80,
            Key::Q => 81,
            Key::R => 82,
            Key::S => 83,
            Key::T => 84,
            Key::U => 85,
            Key::V => 86,
            Key::W => 87,
            Key::X => 88,
            Key::Y => 89,
            Key::Z => 90,
            Key::LeftBracket => 91,
            Key::BackSlash => 92,
            Key::RightBracket => 93,
            Key::Accent => 96,
            Key::Escape => 256,
            Key::NumEnter => 257,
            Key::Backspace => 258,
            Key::Insert => 259,
            Key::Delete => 260,
            Key::Up => 261,
            Key::Down => 262,
            Key::Left => 263,
            Key::Right => 264,
            Key::PageUp => 265,
            Key::PageDown => 266,
            Key::Home => 267,
            Key::End => 268,
            Key::CapsLock => 269,
            Key::ScrollLock => 270,
            Key::NumLock => 271,
            Key::PrintScreen => 272,
            Key::Pause => 273,
            Key::Num0 => 274,
            Key::Num1 => 275,
            Key::Num2 => 276,
            Key::Num3 => 277,
            Key::Num4 => 278,
            Key::Num5 => 279,
            Key::Num6 => 280,
            Key::Num7 => 281,
            Key::Num8 => 282,
            Key::Num9 => 283,
            Key::F1 => 284,
            Key::F2 => 285,
            Key::F3 => 286,
            Key::F4 => 287,
            Key::F5 => 288,
            Key::F6 => 289,
            Key::F7 => 290,
            Key::F8 => 291,
            Key::F9 => 292,
            Key::F10 => 293,
            Key::F11 => 294,
            Key::F12 => 295,
            Key::F13 => 296,
            Key::F14 => 297,
            Key::F15 => 298,
            Key::F16 => 299,
            Key::F17 => 300,
            Key::F18 => 301,
            Key::F19 => 302,
            Key::F20 => 303,
            Key::F21 => 304,
            Key::F22 => 305,
            Key::F23 => 306,
            Key::F24 => 307,
            Key::NumPeriod => 308,
            Key::NumComma => 309,
            Key::NumPlus => 310,
            Key::NumMinus => 311,
            Key::NumDivide => 312,
            Key::NumMultiply => 313,
            Key::NumEquals => 314,
            Key::LeftShift => 315,
            Key::LeftControl => 316,
            Key::LeftAlt => 317,
            Key::LeftSuper => 318,
            Key::RightShift => 319,
            Key::RightControl => 320,
            Key::RightAlt => 321,
            Key::RightSuper => 322,
            Key::Menu => 323,
            Key::AbntC1 => 324,
            Key::AbntC2 => 325,
            Key::Ax => 326,
            Key::Convert => 327,
            Key::Kana => 328,
            Key::Kanji => 329,
            Key::Mail => 330,
            Key::MediaPlayPause => 331,
            Key::MediaStop => 332,
            Key::MediaSelect => 333,
            Key::MediaNextTrack => 334,
            Key::MediaPrevTrack => 335,
            Key::VolumeDown => 336,
            Key::VolumeUp => 337,
            Key::VolumeMute => 338,
            Key::NoConvert => 339,
            Key::OEM102 => 340,
            Key::Sleep => 341,
            Key::NoName => 342,
            Key::WebBack => 343,
            Key::WebFavorites => 344,
            Key::WebForward => 345,
            Key::WebHome => 346,
            Key::WebRefresh => 347,
            Key::WebSearch => 348,
            Key::WebStop => 349,
            Key::Copy => 350,
        }
    }

    /// The Win32 virtual-key code of the key; an unknown key has code 0.
    pub open spec fn spec_virtual_key(self) -> u16 {
        match self {
            Key::Unknown => 0,
            Key::Tab => 9,
            Key::Enter => 13,
            Key::Space => 32,
            Key::Apostrophe => 222,
            Key::Comma => 188,
            Key::Minus => 189,
            Key::Period => 190,
            Key::ForwardSlash => 191,
            Key::_0 => 48,
            Key::_1 => 49,
            Key::_2 => 50,
            Key::_3 => 51,
            Key::_4 => 52,
            Key::_5 => 53,
            Key::_6 => 54,
            Key::_7 => 55,
            Key::_8 => 56,
            Key::_9 => 57,
            Key::Semicolon => 186,
            Key::Equals => 187,
            Key::A => 65,
            Key::B => 66,
            Key::C => 67,
            Key::D => 68,
            Key::E => 69,
            Key::F => 70,
            Key::G => 71,
            Key::H => 72,
            Key::I => 73,
            Key::J => 74,
            Key::K => 75,
            Key::L => 76,
            Key::M => 77,
            Key::N => 78,
            Key::O => 79,
            Key::P => 80,
            Key::Q => 81,
            Key::R => 82,
            Key::S => 83,
            Key::T => 84,
            Key::U => 85,
            Key::V => 86,
            Key::W => 87,
            Key::X => 88,
            Key::Y => 89,
            Key::Z => 90,
            Key::LeftBracket => 219,
            Key::BackSlash => 220,
            Key::RightBracket => 221,
            Key::Accent => 192,
            Key::Escape => 27,
            Key::NumEnter => 13,
            Key::Backspace => 8,
            Key::Insert => 45,
            Key::Delete => 46,
            Key::Up => 38,
            Key::Down => 40,
            Key::Left => 37,
            Key::Right => 39,
            Key::PageUp => 33,
            Key::PageDown => 34,
            Key::Home => 36,
            Key::End => 35,
            Key::CapsLock => 20,
            Key::ScrollLock => 145,
            Key::NumLock => 144,
            Key::PrintScreen => 44,
            Key::Pause => 19,
            Key::Num0 => 96,
            Key::Num1 => 97,
            Key::Num2 => 98,
            Key::Num3 => 99,
            Key::Num4 => 100,
            Key::Num5 => 101,
            Key::Num6 => 102,
            Key::Num7 => 103,
            Key::Num8 => 104,
            Key::Num9 => 105,
            Key::F1 => 112,
            Key::F2 => 113,
            Key::F3 => 114,
            Key::F4 => 115,
            Key::F5 => 116,
            Key::F6 => 117,
            Key::F7 => 118,
            Key::F8 => 119,
            Key::F9 => 120,
            Key::F10 => 121,
            Key::F11 => 122,
            Key::F12 => 123,
            Key::F13 => 124,
            Key::F14 => 125,
            Key::F15 => 126,
            Key::F16 => 127,
            Key::F17 => 128,
            Key::F18 => 129,
            Key::F19 => 130,
            Key::F20 => 131,
            Key::F21 => 132,
            Key::F22 => 133,
            Key::F23 => 134,
            Key::F24 => 135,
            Key::NumPeriod => 110,
            Key::NumComma => 188,
            Key::NumPlus => 107,
            Key::NumMinus => 109,
            Key::NumDivide => 111,
            Key::NumMultiply => 106,
            Key::NumEquals => 187,
            Key::LeftShift => 160,
            Key::LeftControl => 162,
            Key::LeftAlt => 164,
            Key::LeftSuper => 91,
            Key::RightShift => 161,
            Key::RightControl => 163,
            Key::RightAlt => 165,
            Key::RightSuper => 92,
            Key::Menu => 93,
            Key::AbntC1 => 193,
            Key::AbntC2 => 194,
            Key::Ax => 225,
            Key::Convert => 28,
            Key::Kana => 21,
            Key::Kanji => 25,
            Key::Mail => 180,
            Key::MediaPlayPause => 179,
            Key::MediaStop => 178,
            Key::MediaSelect => 181,
            Key::MediaNextTrack => 176,
            Key::MediaPrevTrack => 177,
            Key::VolumeDown => 174,
            Key::VolumeUp => 175,
            Key::VolumeMute => 173,
            Key::NoConvert => 29,
            Key::OEM102 => 226,
            Key::Sleep => 95,
            Key::NoName => 252,
            Key::WebBack => 166,
            Key::WebFavorites => 171,
            Key::WebForward => 167,
            Key::WebHome => 172,
            Key::WebRefresh => 168,
            Key::WebSearch => 170,
            Key::WebStop => 169,
            Key::Copy => 242,
        }
    }

    /// The Win32 virtual-key code of the key (see [`Key::spec_virtual_key`]).
    pub fn to_virtual_key(self) -> (vk: u16)
        ensures
            vk == self.spec_virtual_key(),
    {
        match self {
            Key::Unknown => 0,
            Key::Tab => 9,
            Key::Enter => 13,
            Key::Space => 32,
            Key::Apostrophe => 222,
            Key::Comma => 188,
            Key::Minus => 189,
            Key::Period => 190,
            Key::ForwardSlash => 191,
            Key::_0 => 48,
            Key::_1 => 49,
            Key::_2 => 50,
            Key::_3 => 51,
            Key::_4 => 52,
            Key::_5 => 53,
            Key::_6 => 54,
            Key::_7 => 55,
            Key::_8 => 56,
            Key::_9 => 57,
            Key::Semicolon => 186,
            Key::Equals => 187,
            Key::A => 65,
            Key::B => 66,
            Key::C => 67,
            Key::D => 68,
            Key::E => 69,
            Key::F => 70,
            Key::G => 71,
            Key::H => 72,
            Key::I => 73,
            Key::J => 74,
            Key::K => 75,
            Key::L => 76,
            Key::M => 77,
            Key::N => 78,
            Key::O => 79,
            Key::P => 80,
            Key::Q => 81,
            Key::R => 82,
            Key::S => 83,
            Key::T => 84,
            Key::U => 85,
            Key::V => 86,
            Key::W => 87,
            Key::X => 88,
            Key::Y => 89,
            Key::Z => 90,
            Key::LeftBracket => 219,
            Key::BackSlash => 220,
            Key::RightBracket => 221,
            Key::Accent => 192,
            Key::Escape => 27,
            Key::NumEnter => 13,
            Key::Backspace => 8,
            Key::Insert => 45,
            Key::Delete => 46,
            Key::Up => 38,
            Key::Down => 40,
            Key::Left => 37,
            Key::Right => 39,
            Key::PageUp => 33,
            Key::PageDown => 34,
            Key::Home => 36,
            Key::End => 35,
            Key::CapsLock => 20,
            Key::ScrollLock => 145,
            Key::NumLock => 144,
            Key::PrintScreen => 44,
            Key::Pause => 19,
            Key::Num0 => 96,
            Key::Num1 => 97,
            Key::Num2 => 98,
            Key::Num3 => 99,
            Key::Num4 => 100,
            Key::Num5 => 101,
            Key::Num6 => 102,
            Key::Num7 => 103,
            Key::Num8 => 104,
            Key::Num9 => 105,
            Key::F1 => 112,
            Key::F2 => 113,
            Key::F3 => 114,
            Key::F4 => 115,
            Key::F5 => 116,
            Key::F6 => 117,
            Key::F7 => 118,
            Key::F8 => 119,
            Key::F9 => 120,
            Key::F10 => 121,
            Key::F11 => 122,
            Key::F12 => 123,
            Key::F13 => 124,
            Key::F14 => 125,
            Key::F15 => 126,
            Key::F16 => 127,
            Key::F17 => 128,
            Key::F18 => 129,
            Key::F19 => 130,
            Key::F20 => 131,
            Key::F21 => 132,
            Key::F22 => 133,
            Key::F23 => 134,
            Key::F24 => 135,
            Key::NumPeriod => 110,
            Key::NumComma => 188,
            Key::NumPlus => 107,
            Key::NumMinus => 109,
            Key::NumDivide => 111,
            Key::NumMultiply => 106,
            Key::NumEquals => 187,
            Key::LeftShift => 160,
            Key::LeftControl => 162,
            Key::LeftAlt => 164,
            Key::LeftSuper => 91,
            Key::RightShift => 161,
            Key::RightControl => 163,
            Key::RightAlt => 165,
            Key::RightSuper => 92,
            Key::Menu => 93,
            Key::AbntC1 => 193,
            Key::AbntC2 => 194,
            Key::Ax => 225,
            Key::Convert => 28,
            Key::Kana => 21,
            Key::Kanji => 25,
            Key::Mail => 180,
            Key::MediaPlayPause => 179,
            Key::MediaStop => 178,
            Key::MediaSelect => 181,
            Key::MediaNextTrack => 176,
            Key::MediaPrevTrack => 177,
            Key::VolumeDown => 174,
            Key::VolumeUp => 175,
            Key::VolumeMute => 173,
            Key::NoConvert => 29,
            Key::OEM102 => 226,
            Key::Sleep => 95,
            Key::NoName => 252,
            Key::WebBack => 166,
            Key::WebFavorites => 171,
            Key::WebForward => 167,
            Key::WebHome => 172,
            Key::WebRefresh => 168,
            Key::WebSearch => 170,
            Key::WebStop => 169,
            Key::Copy => 242,
        }
    }

    /// Whether the key is the one that its virtual-key code names. The numpad
    /// Enter, Comma and Equals keys share their codes with the main Enter,
    /// Comma and Equals keys, which those codes name.
    pub open spec fn is_canonical(self) -> bool {
        !(self is NumEnter || self is NumComma || self is NumEquals)
    }

    /// The key that the Win32 virtual-key code `vk` names (`Key::Unknown` where
    /// it names none). The two laws below characterize it: it inverts
    /// [`Key::spec_virtual_key`] on canonical keys, and names no key for a code
    /// that no canonical key has.
    pub closed spec fn key_of_virtual_key(vk: u16) -> Key {
        match vk {
            49 => Key::_1,
            50 => Key::_2,
            51 => Key::_3,
            52 => Key::_4,
            53 => Key::_5,
            54 => Key::_6,
            55 => Key::_7,
            56 => Key::_8,
            57 => Key::_9,
            48 => Key::_0,
            65 => Key::A,
            66 => Key::B,
            67 => Key::C,
            68 => Key::D,
            69 => Key::E,
            70 => Key::F,
            71 => Key::G,
            72 => Key::H,
            73 => Key::I,
            74 => Key::J,
            75 => Key::K,
            76 => Key::L,
            77 => Key::M,
            78 => Key::N,
            79 => Key::O,
            80 => Key::P,
            81 => Key::Q,
            82 => Key::R,
            83 => Key::S,
            84 => Key::T,
            85 => Key::U,
            86 => Key::V,
            87 => Key::W,
            88 => Key::X,
            89 => Key::Y,
            90 => Key::Z,
            27 => Key::Escape,
            112 => Key::F1,
            113 => Key::F2,
            114 => Key::F3,
            115 => Key::F4,
            116 => Key::F5,
            117 => Key::F6,
            118 => Key::F7,
            119 => Key::F8,
            120 => Key::F9,
            121 => Key::F10,
            122 => Key::F11,
            123 => Key::F12,
            124 => Key::F13,
            125 => Key::F14,
            126 => Key::F15,
            127 => Key::F16,
            128 => Key::F17,
            129 => Key::F18,
            130 => Key::F19,
            131 => Key::F20,
            132 => Key::F21,
            133 => Key::F22,
            134 => Key::F23,
            135 => Key::F24,
            44 => Key::PrintScreen,
            145 => Key::ScrollLock,
            19 => Key::Pause,
            45 => Key::Insert,
            36 => Key::Home,
            46 => Key::Delete,
            35 => Key::End,
            34 => Key::PageDown,
            33 => Key::PageUp,
            37 => Key::Left,
            38 => Key::Up,
            39 => Key::Right,
            40 => Key::Down,
            8 => Key::Backspace,
            13 => Key::Enter,
            32 => Key::Space,
            144 => Key::NumLock,
            96 => Key::Num0,
            97 => Key::Num1,
            98 => Key::Num2,
            99 => Key::Num3,
            100 => Key::Num4,
            101 => Key::Num5,
            102 => Key::Num6,
            103 => Key::Num7,
            104 => Key::Num8,
            105 => Key::Num9,
            107 => Key::NumPlus,
            109 => Key::NumMinus,
            106 => Key::NumMultiply,
            111 => Key::NumDivide,
            110 => Key::NumPeriod,
            193 => Key::AbntC1,
            194 => Key::AbntC2,
            222 => Key::Apostrophe,
            93 => Key::Menu,
            225 => Key::Ax,
            220 => Key::BackSlash,
            20 => Key::CapsLock,
            188 => Key::Comma,
            28 => Key::Convert,
            187 => Key::Equals,
            192 => Key::Accent,
            21 => Key::Kana,
            25 => Key::Kanji,
            164 => Key::LeftAlt,
            219 => Key::LeftBracket,
            162 => Key::LeftControl,
            160 => Key::LeftShift,
            91 => Key::LeftSuper,
            180 => Key::Mail,
            181 => Key::MediaSelect,
            178 => Key::MediaStop,
            189 => Key::Minus,
            173 => Key::VolumeMute,
            176 => Key::MediaNextTrack,
            29 => Key::NoConvert,
            226 => Key::OEM102,
            190 => Key::Period,
            179 => Key::MediaPlayPause,
            177 => Key::MediaPrevTrack,
            165 => Key::RightAlt,
            221 => Key::RightBracket,
            163 => Key::RightControl,
            161 => Key::RightShift,
            92 => Key::RightSuper,
            186 => Key::Semicolon,
            191 => Key::ForwardSlash,
            95 => Key::Sleep,
            9 => Key::Tab,
            252 => Key::NoName,
            174 => Key::VolumeDown,
            175 => Key::VolumeUp,
            166 => Key::WebBack,
            171 => Key::WebFavorites,
            167 => Key::WebForward,
            172 => Key::WebHome,
            168 => Key::WebRefresh,
            170 => Key::WebSearch,
            169 => Key::WebStop,
            242 => Key::Copy,
            _ => Key::Unknown,
        }
    }

    /// The virtual-key code of a key names that key, unless the key shares its
    /// code with another key: converting a canonical key to its code and back
    /// gives the key.
    pub proof fn lemma_virtual_key_round_trip(k: Key)
        ensures
            k.is_canonical() ==> Key::key_of_virtual_key(k.spec_virtual_key()) == k,
    {
        match k {
            Key::Unknown => {},
            Key::Tab => {},
            Key::Enter => {},
            Key::Space => {},
            Key::Apostrophe => {},
            Key::Comma => {},
            Key::Minus => {},
            Key::Period => {},
            Key::ForwardSlash => {},
            Key::_0 => {},
            Key::_1 => {},
            Key::_2 => {},
            Key::_3 => {},
            Key::_4 => {},
            Key::_5 => {},
            Key::_6 => {},
            Key::_7 => {},
            Key::_8 => {},
            Key::_9 => {},
            Key::Semicolon => {},
            Key::Equals => {},
            Key::A => {},
            Key::B => {},
            Key::C => {},
            Key::D => {},
            Key::E => {},
            Key::F => {},
            Key::G => {},
            Key::H => {},
            Key::I => {},
            Key::J => {},
            Key::K => {},
            Key::L => {},
            Key::M => {},
            Key::N => {},
            Key::O => {},
            Key::P => {},
            Key::Q => {},
            Key::R => {},
            Key::S => {},
            Key::T => {},
            Key::U => {},
            Key::V => {},
            Key::W => {},
            Key::X => {},
            Key::Y => {},
            Key::Z => {},
            Key::LeftBracket => {},
            Key::BackSlash => {},
            Key::RightBracket => {},
            Key::Accent => {},
            Key::Escape => {},
            Key::NumEnter => {},
            Key::Backspace => {},
            Key::Insert => {},
            Key::Delete => {},
            Key::Up => {},
            Key::Down => {},
            Key::Left => {},
            Key::Right => {},
            Key::PageUp => {},
            Key::PageDown => {},
            Key::Home => {},
            Key::End => {},
            Key::CapsLock => {},
            Key::ScrollLock => {},
            Key::NumLock => {},
            Key::PrintScreen => {},
            Key::Pause => {},
            Key::Num0 => {},
            Key::Num1 => {},
            Key::Num2 => {},
            Key::Num3 => {},
            Key::Num4 => {},
            Key::Num5 => {},
            Key::Num6 => {},
            Key::Num7 => {},
            Key::Num8 => {},
            Key::Num9 => {},
            Key::F1 => {},
            Key::F2 => {},
            Key::F3 => {},
            Key::F4 => {},
            Key::F5 => {},
            Key::F6 => {},
            Key::F7 => {},
            Key::F8 => {},
            Key::F9 => {},
            Key::F10 => {},
            Key::F11 => {},
            Key::F12 => {},
            Key::F13 => {},
            Key::F14 => {},
            Key::F15 => {},
            Key::F16 => {},
            Key::F17 => {},
            Key::F18 => {},
            Key::F19 => {},
            Key::F20 => {},
            Key::F21 => {},
            Key::F22 => {},
            Key::F23 => {},
            Key::F24 => {},
            Key::NumPeriod => {},
            Key::NumComma => {},
            Key::NumPlus => {},
            Key::NumMinus => {},
            Key::NumDivide => {},
            Key::NumMultiply => {},
            Key::NumEquals => {},
            Key::LeftShift => {},
            Key::LeftControl => {},
            Key::LeftAlt => {},
            Key::LeftSuper => {},
            Key::RightShift => {},
            Key::RightControl => {},
            Key::RightAlt => {},
            Key::RightSuper => {},
            Key::Menu => {},
            Key::AbntC1 => {},
            Key::AbntC2 => {},
            Key::Ax => {},
            Key::Convert => {},
            Key::Kana => {},
            Key::Kanji => {},
            Key::Mail => {},
            Key::MediaPlayPause => {},
            Key::MediaStop => {},
            Key::MediaSelect => {},
            Key::MediaNextTrack => {},
            Key::MediaPrevTrack => {},
            Key::VolumeDown => {},
            Key::VolumeUp => {},
            Key::VolumeMute => {},
            Key::NoConvert => {},
            Key::OEM102 => {},
            Key::Sleep => {},
            Key::NoName => {},
            Key::WebBack => {},
            Key::WebFavorites => {},
            Key::WebForward => {},
            Key::WebHome => {},
            Key::WebRefresh => {},
            Key::WebSearch => {},
            Key::WebStop => {},
            Key::Copy => {},
        }
    }

    /// A code that names a key is that key's code: converting a code to a key
    /// and back gives the code, whenever the key is known.
    pub proof fn lemma_key_of_virtual_key_inverse(vk: u16)
        ensures
            Key::key_of_virtual_key(vk) != Key::Unknown ==> Key::key_of_virtual_key(vk).is_canonical()
                && Key::key_of_virtual_key(vk).spec_virtual_key() == vk,
    {
    }

    /// The key that the Win32 virtual-key code `vk` names, or `Key::Unknown`
    /// where it names none: the key is the one canonical key whose code is `vk`.
    pub fn from_virtual_key(vk: u16) -> (key: Key)
        ensures
            key == Key::key_of_virtual_key(vk),
            key != Key::Unknown ==> key.is_canonical() && key.spec_virtual_key() == vk,
            forall|k: Key|
                #![trigger k.spec_virtual_key()]
                k.is_canonical() && k != Key::Unknown && k.spec_virtual_key() == vk ==> key
                    == k,
    {
        let key = match vk {
            49 => Key::_1,
            50 => Key::_2,
            51 => Key::_3,
            52 => Key::_4,
            53 => Key::_5,
            54 => Key::_6,
            55 => Key::_7,
            56 => Key::_8,
            57 => Key::_9,
            48 => Key::_0,
            65 => Key::A,
            66 => Key::B,
            67 => Key::C,
            68 => Key::D,
            69 => Key::E,
            70 => Key::F,
            71 => Key::G,
            72 => Key::H,
            73 => Key::I,
            74 => Key::J,
            75 => Key::K,
            76 => Key::L,
            77 => Key::M,
            78 => Key::N,
            79 => Key::O,
            80 => Key::P,
            81 => Key::Q,
            82 => Key::R,
            83 => Key::S,
            84 => Key::T,
            85 => Key::U,
            86 => Key::V,
            87 => Key::W,
            88 => Key::X,
            89 => Key::Y,
            90 => Key::Z,
            27 => Key::Escape,
            112 => Key::F1,
            113 => Key::F2,
            114 => Key::F3,
            115 => Key::F4,
            116 => Key::F5,
            117 => Key::F6,
            118 => Key::F7,
            119 => Key::F8,
            120 => Key::F9,
            121 => Key::F10,
            122 => Key::F11,
            123 => Key::F12,
            124 => Key::F13,
            125 => Key::F14,
            126 => Key::F15,
            127 => Key::F16,
            128 => Key::F17,
            129 => Key::F18,
            130 => Key::F19,
            131 => Key::F20,
            132 => Key::F21,
            133 => Key::F22,
            134 => Key::F23,
            135 => Key::F24,
            44 => Key::PrintScreen,
            145 => Key::ScrollLock,
            19 => Key::Pause,
            45 => Key::Insert,
            36 => Key::Home,
            46 => Key::Delete,
            35 => Key::End,
            34 => Key::PageDown,
            33 => Key::PageUp,
            37 => Key::Left,
            38 => Key::Up,
            39 => Key::Right,
            40 => Key::Down,
            8 => Key::Backspace,
            13 => Key::Enter,
            32 => Key::Space,
            144 => Key::NumLock,
            96 => Key::Num0,
            97 => Key::Num1,
            98 => Key::Num2,
            99 => Key::Num3,
            100 => Key::Num4,
            101 => Key::Num5,
            102 => Key::Num6,
            103 => Key::Num7,
            104 => Key::Num8,
            105 => Key::Num9,
            107 => Key::NumPlus,
            109 => Key::NumMinus,
            106 => Key::NumMultiply,
            111 => Key::NumDivide,
            110 => Key::NumPeriod,
            193 => Key::AbntC1,
            194 => Key::AbntC2,
            222 => Key::Apostrophe,
            93 => Key::Menu,
            225 => Key::Ax,
            220 => Key::BackSlash,
            20 => Key::CapsLock,
            188 => Key::Comma,
            28 => Key::Convert,
            187 => Key::Equals,
            192 => Key::Accent,
            21 => Key::Kana,
            25 => Key::Kanji,
            164 => Key::LeftAlt,
            219 => Key::LeftBracket,
            162 => Key::LeftControl,
            160 => Key::LeftShift,
            91 => Key::LeftSuper,
            180 => Key::Mail,
            181 => Key::MediaSelect,
            178 => Key::MediaStop,
            189 => Key::Minus,
            173 => Key::VolumeMute,
            176 => Key::MediaNextTrack,
            29 => Key::NoConvert,
            226 => Key::OEM102,
            190 => Key::Period,
            179 => Key::MediaPlayPause,
            177 => Key::MediaPrevTrack,
            165 => Key::RightAlt,
            221 => Key::RightBracket,
            163 => Key::RightControl,
            161 => Key::RightShift,
            92 => Key::RightSuper,
            186 => Key::Semicolon,
            191 => Key::ForwardSlash,
            95 => Key::Sleep,
            9 => Key::Tab,
            252 => Key::NoName,
            174 => Key::VolumeDown,
            175 => Key::VolumeUp,
            166 => Key::WebBack,
            171 => Key::WebFavorites,
            167 => Key::WebForward,
            172 => Key::WebHome,
            168 => Key::WebRefresh,
            170 => Key::WebSearch,
            169 => Key::WebStop,
            242 => Key::Copy,
            _ => Key::Unknown,
        };
        proof {
            assert(key == Key::key_of_virtual_key(vk));
            assert forall|k: Key|
                #![trigger k.spec_virtual_key()]
                k.is_canonical() && k != Key::Unknown && k.spec_virtual_key() == vk implies key
                    == k by {
                Key::lemma_virtual_key_round_trip(k);
            }
        }
        key
    }
}

#[verifier::external_type_specification]
#[verifier::external_body]
pub struct ExVirtualKey(VIRTUAL_KEY);

/// The code that a `VIRTUAL_KEY` holds (its field).
pub uninterp spec fn virtual_key_code(vk: VIRTUAL_KEY) -> u16;

/// The `VIRTUAL_KEY` that holds `code`.
pub uninterp spec fn virtual_key_of(code: u16) -> VIRTUAL_KEY;

/// Reads the code of a `VIRTUAL_KEY`, the value of its one field. As that
/// field is all the struct holds, the `VIRTUAL_KEY` built from the code is the
/// one that was read.
#[verifier::external_body]
fn virtual_key_value(vk: &VIRTUAL_KEY) -> (code: u16)
    ensures
        code == virtual_key_code(*vk),
        virtual_key_of(code) == *vk,
{
    vk.0
}

/// Makes the `VIRTUAL_KEY` that holds `code` (the tuple struct's constructor):
/// reading its code gives `code` back.
#[verifier::external_body]
fn new_virtual_key(code: u16) -> (vk: VIRTUAL_KEY)
    ensures
        vk == virtual_key_of(code),
        virtual_key_code(vk) == code,
{
    VIRTUAL_KEY(code)
}

impl From<VIRTUAL_KEY> for Key {
    /// The key that a virtual key names (see [`Key::from_virtual_key`]). The
    /// virtual key is the one that its code builds.
    fn from(value: VIRTUAL_KEY) -> (key: Self)
        ensures
            key == Key::key_of_virtual_key(virtual_key_code(value)),
            virtual_key_of(virtual_key_code(value)) == value,
    {
        Key::from_virtual_key(virtual_key_value(&value))
    }
}

impl FromSpecImpl<VIRTUAL_KEY> for Key {
    open spec fn obeys_from_spec() -> bool {
        true
    }

    open spec fn from_spec(value: VIRTUAL_KEY) -> Self {
        Key::key_of_virtual_key(virtual_key_code(value))
    }
}

impl From<Key> for VIRTUAL_KEY {
    /// The virtual key of a key (see [`Key::to_virtual_key`]): the one that
    /// the key's code builds, and whose code is that code.
    fn from(value: Key) -> (vk: Self)
        ensures
            vk == virtual_key_of(value.spec_virtual_key()),
            virtual_key_code(vk) == value.spec_virtual_key(),
    {
        new_virtual_key(value.to_virtual_key())
    }
}

impl FromSpecImpl<Key> for VIRTUAL_KEY {
    open spec fn obeys_from_spec() -> bool {
        true
    }

    open spec fn from_spec(value: Key) -> Self {
        virtual_key_of(value.spec_virtual_key())
    }
}

/// A `VIRTUAL_KEY` that names a key is given back by converting it to that key
/// and the key back: the two `From` conversions undo each other on it. (Every
/// `VIRTUAL_KEY` is built from its code; `Key::from` states it of its
/// argument.)
pub proof fn lemma_virtual_key_conversions_round_trip(vk: VIRTUAL_KEY)
    requires
        virtual_key_of(virtual_key_code(vk)) == vk,
        Key::key_of_virtual_key(virtual_key_code(vk)) != Key::Unknown,
    ensures
        <VIRTUAL_KEY as FromSpec<Key>>::from_spec(<Key as FromSpec<VIRTUAL_KEY>>::from_spec(vk))
            == vk,
{
    Key::lemma_key_of_virtual_key_inverse(virtual_key_code(vk));
}

/// The prefix that a raw keyboard report's flags give its scan code:
/// `0xE000` for the E0 prefix, else `0xE100` for the E1 prefix, else none.
pub open spec fn spec_scancode_extension(flags: u16) -> u16 {
    if flags & win32::RI_KEY_E0 == win32::RI_KEY_E0 {
        0xE000
    } else if flags & win32::RI_KEY_E1 == win32::RI_KEY_E1 {
        0xE100
    } else {
        0
    }
}

/// The extended scan code of a raw keyboard report with the given flags and
/// make code. Some devices (often for media keys) report a make code of 0 with
/// a valid virtual key; their scan code is the one that the system maps that
/// virtual key to, `vk_scancode`.
pub fn raw_key_scancode(flags: u16, make_code: u16, vk_scancode: u16) -> (scancode: u16)
    ensures
        scancode == (if make_code == 0 {
            vk_scancode
        } else {
            make_code | spec_scancode_extension(flags)
        }),
{
    let extension: u16 = if is_flag_set_u16(flags, win32::RI_KEY_E0) {
        0xE000
    } else if is_flag_set_u16(flags, win32::RI_KEY_E1) {
        0xE100
    } else {
        0x0000
    };
    if make_code == 0 {
        vk_scancode
    } else {
        make_code | extension
    }
}

/// Whether the key is a digit or the period of the numpad.
pub open spec fn is_numpad_digit_or_period(k: Key) -> bool {
    k is NumPeriod || k is Num0 || k is Num1 || k is Num2 || k is Num3 || k is Num4
        || k is Num5 || k is Num6 || k is Num7 || k is Num8 || k is Num9
}

/// The keys whose fake Shift reports are ignored are exactly the numpad
/// digits and the numpad period: the keys whose virtual keys are `VK_NUMPAD0`
/// to `VK_NUMPAD9` (0x60 to 0x69) and `VK_DECIMAL` (0x6E).
pub proof fn lemma_numpad_keys(k: Key)
    ensures
        is_numpad_digit_or_period(k) <==> (0x60 <= k.spec_virtual_key() <= 0x69
            || k.spec_virtual_key() == 0x6E),
{
    match k {
            Key::Unknown => {},
            Key::Tab => {},
            Key::Enter => {},
            Key::Space => {},
            Key::Apostrophe => {},
            Key::Comma => {},
            Key::Minus => {},
            Key::Period => {},
            Key::ForwardSlash => {},
            Key::_0 => {},
            Key::_1 => {},
            Key::_2 => {},
            Key::_3 => {},
            Key::_4 => {},
            Key::_5 => {},
            Key::_6 => {},
            Key::_7 => {},
            Key::_8 => {},
            Key::_9 => {},
            Key::Semicolon => {},
            Key::Equals => {},
            Key::A => {},
            Key::B => {},
            Key::C => {},
            Key::D => {},
            Key::E => {},
            Key::F => {},
            Key::G => {},
            Key::H => {},
            Key::I => {},
            Key::J => {},
            Key::K => {},
            Key::L => {},
            Key::M => {},
            Key::N => {},
            Key::O => {},
            Key::P => {},
            Key::Q => {},
            Key::R => {},
            Key::S => {},
            Key::T => {},
            Key::U => {},
            Key::V => {},
            Key::W => {},
            Key::X => {},
            Key::Y => {},
            Key::Z => {},
            Key::LeftBracket => {},
            Key::BackSlash => {},
            Key::RightBracket => {},
            Key::Accent => {},
            Key::Escape => {},
            Key::NumEnter => {},
            Key::Backspace => {},
            Key::Insert => {},
            Key::Delete => {},
            Key::Up => {},
            Key::Down => {},
            Key::Left => {},
            Key::Right => {},
            Key::PageUp => {},
            Key::PageDown => {},
            Key::Home => {},
            Key::End => {},
            Key::CapsLock => {},
            Key::ScrollLock => {},
            Key::NumLock => {},
            Key::PrintScreen => {},
            Key::Pause => {},
            Key::Num0 => {},
            Key::Num1 => {},
            Key::Num2 => {},
            Key::Num3 => {},
            Key::Num4 => {},
            Key::Num5 => {},
            Key::Num6 => {},
            Key::Num7 => {},
            Key::Num8 => {},
            Key::Num9 => {},
            Key::F1 => {},
            Key::F2 => {},
            Key::F3 => {},
            Key::F4 => {},
            Key::F5 => {},
            Key::F6 => {},
            Key::F7 => {},
            Key::F8 => {},
            Key::F9 => {},
            Key::F10 => {},
            Key::F11 => {},
            Key::F12 => {},
            Key::F13 => {},
            Key::F14 => {},
            Key::F15 => {},
            Key::F16 => {},
            Key::F17 => {},
            Key::F18 => {},
            Key::F19 => {},
            Key::F20 => {},
            Key::F21 => {},
            Key::F22 => {},
            Key::F23 => {},
            Key::F24 => {},
            Key::NumPeriod => {},
            Key::NumComma => {},
            Key::NumPlus => {},
            Key::NumMinus => {},
            Key::NumDivide => {},
            Key::NumMultiply => {},
            Key::NumEquals => {},
            Key::LeftShift => {},
            Key::LeftControl => {},
            Key::LeftAlt => {},
            Key::LeftSuper => {},
            Key::RightShift => {},
            Key::RightControl => {},
            Key::RightAlt => {},
            Key::RightSuper => {},
            Key::Menu => {},
            Key::AbntC1 => {},
            Key::AbntC2 => {},
            Key::Ax => {},
            Key::Convert => {},
            Key::Kana => {},
            Key::Kanji => {},
            Key::Mail => {},
            Key::MediaPlayPause => {},
            Key::MediaStop => {},
            Key::MediaSelect => {},
            Key::MediaNextTrack => {},
            Key::MediaPrevTrack => {},
            Key::VolumeDown => {},
            Key::VolumeUp => {},
            Key::VolumeMute => {},
            Key::NoConvert => {},
            Key::OEM102 => {},
            Key::Sleep => {},
            Key::NoName => {},
            Key::WebBack => {},
            Key::WebFavorites => {},
            Key::WebForward => {},
            Key::WebHome => {},
            Key::WebRefresh => {},
            Key::WebSearch => {},
            Key::WebStop => {},
            Key::Copy => {},
    }
}

/// A virtual key names a numpad digit or the numpad period exactly when it is
/// one of `VK_NUMPAD0` to `VK_NUMPAD9` (0x60 to 0x69) or `VK_DECIMAL` (0x6E).
pub proof fn lemma_numpad_virtual_keys(vk: u16)
    ensures
        is_numpad_digit_or_period(Key::key_of_virtual_key(vk)) <==> (0x60 <= vk <= 0x69 || vk
            == 0x6E),
{
    Key::lemma_key_of_virtual_key_inverse(vk);
    lemma_numpad_keys(Key::key_of_virtual_key(vk));
    if 0x60 <= vk <= 0x69 || vk == 0x6E {
        assert(Key::key_of_virtual_key(vk) != Key::Unknown);
    }
}

/// The key that a raw keyboard report stands for, or `None` where the report
/// is to be ignored. `vkey` is the report's virtual key, `scancode` its
/// extended scan code and `mapped_vk` the virtual key that the system maps that
/// scan code to.
///
/// - Pause and PrintScreen first send a fake Ctrl (`0xE11D`) or Shift
///   (`0xE02A`) report, which is ignored.
/// - NumLock and Pause share a scan code; the virtual key tells NumLock apart.
/// - With Shift held, a numpad digit or period comes with a fake Shift report
///   that names the numpad key, which is ignored.
pub fn from_raw(vkey: u16, scancode: u16, mapped_vk: u16) -> (key: Option<Key>)
    ensures
        key is None <==> (scancode == 0xE11D || scancode == 0xE02A || (vkey == VK_SHIFT && (0x60
            <= mapped_vk <= 0x69 || mapped_vk == 0x6E))),
        key matches Some(k) ==> k == (if vkey == VK_NUMLOCK {
            Key::NumLock
        } else {
            Key::key_of_virtual_key(mapped_vk)
        }),
        key == (if scancode == 0xE11D || scancode == 0xE02A {
            None::<Key>
        } else {
            let physical = if vkey == VK_NUMLOCK {
                Key::NumLock
            } else {
                Key::key_of_virtual_key(mapped_vk)
            };
            if vkey == VK_SHIFT && is_numpad_digit_or_period(physical) {
                None::<Key>
            } else {
                Some(physical)
            }
        }),
{
    proof {
        lemma_numpad_virtual_keys(mapped_vk);
    }
    if scancode == 0xE11D || scancode == 0xE02A {
        return None;
    }
    let physical_key = if vkey == VK_NUMLOCK {
        Key::NumLock
    } else {
        Key::from_virtual_key(mapped_vk)
    };
    if vkey == VK_SHIFT {
        match physical_key {
            Key::NumPeriod | Key::Num0 | Key::Num1 | Key::Num2 | Key::Num3 | Key::Num4
            | Key::Num5 | Key::Num6 | Key::Num7 | Key::Num8 | Key::Num9 => {
                return None;
            },
            _ => {},
        }
    }
    Some(physical_key)
}

} // verus!

//! `witer` (window iterator, "wit-er") is an iterator-based Win32 window library.
//!
//! This crate holds the window library's logic: the decoding of Win32 message
//! parameters into messages, the input state, the window's stage machine and the
//! decisions that the window makes for each request and each message it receives.

pub mod compat;
pub mod utilities;
pub mod win32;
pub mod window;

pub use window::{
    data::{CursorMode, Flow, Fullscreen, PhysicalPosition, PhysicalSize, Theme, Visibility},
    input::{
        key::Key,
        mouse::{Mouse, MouseButton},
        state::{ButtonState, KeyState, RawKeyState},
        Input,
    },
    message::{LoopMessage, Message, RawInputMessage},
    settings::WindowSettings,
};

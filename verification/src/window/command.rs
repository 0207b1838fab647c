//! Requests that the main thread posts to the window thread.

use cursor_icon::CursorIcon;
use vstd::prelude::*;

use super::data::{CursorMode, Fullscreen, PhysicalPosition, PhysicalSize, Rect, Visibility};
use crate::win32;

verus! {

/// The id of the window message that carries a [`Command`].
pub const COMMAND_MESSAGE_ID: u32 = win32::WM_USER + 69;

/// A request to the window thread. Sizes and positions are physical: the
/// window converts logical ones with its scale factor before it posts them.
#[derive(Debug, Clone, PartialEq)]
pub enum Command {
    Exit,
    Destroy,
    Redraw,
    SetVisibility(Visibility),
    SetDecorations(Visibility),
    SetWindowText(String),
    SetSize(PhysicalSize),
    SetPosition(PhysicalPosition),
    SetFullscreen(Option<Fullscreen>),
    SetCursorIcon(CursorIcon),
    SetCursorMode(CursorMode),
    SetCursorVisibility(Visibility),
}

impl Command {
    /// Whether the window thread acts on the command: `Destroy` only once the
    /// window's state is gone (`has_window` false), every other command only
    /// while it exists.
    pub fn is_handled(&self, has_window: bool) -> (handled: bool)
        ensures
            handled == (if self is Destroy {
                !has_window
            } else {
                has_window
            }),
    {
        match self {
            Command::Destroy => !has_window,
            _ => has_window,
        }
    }
}

/// Where a window goes when its fullscreen mode is set: the whole monitor for
/// borderless fullscreen (nowhere where the monitor's bounds are unknown), the
/// last windowed bounds otherwise. The bounds are `(x, y, width, height)`.
pub fn fullscreen_bounds(
    fullscreen: Option<Fullscreen>,
    monitor: Option<Rect>,
    last_position: PhysicalPosition,
    last_size: PhysicalSize,
) -> (bounds: Option<(i32, i32, i32, i32)>)
    requires
        monitor matches Some(r) ==> i32::MIN <= r.right - r.left <= i32::MAX && i32::MIN
            <= r.bottom - r.top <= i32::MAX,
    ensures
        bounds == (match fullscreen {
            Some(Fullscreen::Borderless) => match monitor {
                Some(r) => Some(
                    (r.left, r.top, (r.right - r.left) as i32, (r.bottom - r.top) as i32),
                ),
                None => None::<(i32, i32, i32, i32)>,
            },
            None => Some(
                (
                    last_position.x,
                    last_position.y,
                    last_size.width as i32,
                    last_size.height as i32,
                ),
            ),
        }),
{
    match fullscreen {
        Some(Fullscreen::Borderless) => match monitor {
            Some(r) => Some((r.left, r.top, r.right - r.left, r.bottom - r.top)),
            None => None,
        },
        None => Some(
            (
                last_position.x,
                last_position.y,
                #[verifier::truncate] (last_size.width as i32),
                #[verifier::truncate] (last_size.height as i32),
            ),
        ),
    }
}

} // verus!

//! The frame style of a window.

use vstd::prelude::*;

use super::data::{Fullscreen, Visibility};
use super::settings::WindowSettings;
use crate::utilities::{
    get_window_ex_style, get_window_style, spec_base_window_style,
};
use crate::win32;

verus! {

/// The style of a window's frame and its current shape and focus.
#[derive(Debug, Clone, Copy, PartialEq, Eq, Structural)]
pub struct Style {
    pub visibility: Visibility,
    pub decorations: Visibility,
    pub fullscreen: Option<Fullscreen>,
    pub resizeable: bool,
    pub minimized: bool,
    pub maximized: bool,
    pub focused: bool,
    pub active: bool,
}

impl Style {
    /// The style of a window created with `settings`: their visibility,
    /// decorations, fullscreen mode and resizeability; neither minimized nor
    /// maximized, neither focused nor active.
    pub fn from_settings(settings: &WindowSettings) -> (style: Self)
        ensures
            style == (Style {
                visibility: settings.visibility,
                decorations: settings.decorations,
                fullscreen: settings.fullscreen,
                resizeable: settings.resizeable,
                minimized: false,
                maximized: false,
                focused: false,
                active: false,
            }),
    {
        Style {
            visibility: settings.visibility,
            decorations: settings.decorations,
            fullscreen: settings.fullscreen,
            resizeable: settings.resizeable,
            minimized: false,
            maximized: false,
            focused: false,
            active: false,
        }
    }

    /// Whether the window has the keyboard focus and is the active window.
    pub fn has_focus(&self) -> (focus: bool)
        ensures
            focus == (self.focused && self.active),
    {
        self.focused && self.active
    }

    /// The window style bits for this style (see [`get_window_style`]).
    pub fn window_style(&self) -> (style: u32)
        ensures
            style == (match self.visibility {
                Visibility::Shown => spec_base_window_style(self.fullscreen) | win32::WS_VISIBLE,
                Visibility::Hidden => spec_base_window_style(self.fullscreen),
            }),
    {
        get_window_style(self.fullscreen, self.visibility)
    }

    /// The extended window style bits for this style (see
    /// [`get_window_ex_style`]).
    pub fn window_ex_style(&self) -> (style: u32)
        ensures
            style == (match self.fullscreen {
                Some(Fullscreen::Borderless) => win32::WS_EX_APPWINDOW,
                None => win32::WS_EX_OVERLAPPEDWINDOW | win32::WS_EX_APPWINDOW,
            }),
    {
        get_window_ex_style(self.fullscreen)
    }
}

} // verus!

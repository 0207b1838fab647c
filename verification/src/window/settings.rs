//! Optional configuration of a window.

use vstd::prelude::*;

use super::data::{CursorMode, Flow, Fullscreen, Theme, Visibility};

verus! {

/// Optional configuration for the window to be built.
#[derive(Debug, Clone, Copy, PartialEq, Eq, Structural)]
pub struct WindowSettings {
    pub flow: Flow,
    pub theme: Theme,
    pub visibility: Visibility,
    pub decorations: Visibility,
    pub resizeable: bool,
    pub fullscreen: Option<Fullscreen>,
    pub cursor_mode: CursorMode,
    pub close_on_x: bool,
}

/// `Shown` for `true`, `Hidden` for `false`.
pub open spec fn visibility_of(shown: bool) -> Visibility {
    if shown {
        Visibility::Shown
    } else {
        Visibility::Hidden
    }
}

impl WindowSettings {
    /// The default settings: waiting flow, automatic theme, shown with
    /// decorations, resizeable, windowed, normal cursor, closed by its X
    /// button.
    pub fn new() -> (settings: Self)
        ensures
            settings == (WindowSettings {
                flow: Flow::Wait,
                theme: Theme::Auto,
                visibility: Visibility::Shown,
                decorations: Visibility::Shown,
                resizeable: true,
                fullscreen: None,
                cursor_mode: CursorMode::Normal,
                close_on_x: true,
            }),
    {
        WindowSettings {
            flow: Flow::Wait,
            theme: Theme::Auto,
            visibility: Visibility::Shown,
            decorations: Visibility::Shown,
            resizeable: true,
            fullscreen: None,
            cursor_mode: CursorMode::Normal,
            close_on_x: true,
        }
    }

    pub fn with_flow(self, flow: Flow) -> (settings: Self)
        ensures
            settings == (WindowSettings { flow, ..self }),
    {
        WindowSettings { flow, ..self }
    }

    pub fn with_theme(self, theme: Theme) -> (settings: Self)
        ensures
            settings == (WindowSettings { theme, ..self }),
    {
        WindowSettings { theme, ..self }
    }

    pub fn with_visible(self, visible: bool) -> (settings: Self)
        ensures
            settings == (WindowSettings { visibility: visibility_of(visible), ..self }),
    {
        let visibility = if visible {
            Visibility::Shown
        } else {
            Visibility::Hidden
        };
        WindowSettings { visibility, ..self }
    }

    pub fn with_decorations(self, decorated: bool) -> (settings: Self)
        ensures
            settings == (WindowSettings { decorations: visibility_of(decorated), ..self }),
    {
        let decorations = if decorated {
            Visibility::Shown
        } else {
            Visibility::Hidden
        };
        WindowSettings { decorations, ..self }
    }

    pub fn with_fullscreen(self, fullscreen: Option<Fullscreen>) -> (settings: Self)
        ensures
            settings == (WindowSettings { fullscreen, ..self }),
    {
        WindowSettings { fullscreen, ..self }
    }

    pub fn with_cursor_mode(self, cursor_mode: CursorMode) -> (settings: Self)
        ensures
            settings == (WindowSettings { cursor_mode, ..self }),
    {
        WindowSettings { cursor_mode, ..self }
    }

    pub fn with_close_on_x(self, close_on_x: bool) -> (settings: Self)
        ensures
            settings == (WindowSettings { close_on_x, ..self }),
    {
        WindowSettings { close_on_x, ..self }
    }

    pub fn with_resizeable(self, resizeable: bool) -> (settings: Self)
        ensures
            settings == (WindowSettings { resizeable, ..self }),
    {
        WindowSettings { resizeable, ..self }
    }
}

impl Default for WindowSettings {
    fn default() -> (settings: Self)
        ensures
            settings == (WindowSettings {
                flow: Flow::Wait,
                theme: Theme::Auto,
                visibility: Visibility::Shown,
                decorations: Visibility::Shown,
                resizeable: true,
                fullscreen: None,
                cursor_mode: CursorMode::Normal,
                close_on_x: true,
            }),
    {
        WindowSettings::new()
    }
}

} // verus!

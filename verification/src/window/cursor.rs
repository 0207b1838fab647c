//! The cursor of a window.

use cursor_icon::CursorIcon;
use vstd::prelude::*;

use super::data::{CursorMode, PhysicalPosition, Visibility};

verus! {

#[verifier::external_type_specification]
#[verifier::external_body]
pub struct ExCursorIcon(CursorIcon);

/// `CursorIcon`'s `clone`. The enum derives `Clone` and `Copy`, so a clone is
/// the same icon.
pub assume_specification[ <CursorIcon as Clone>::clone ](icon: &CursorIcon) -> (copy: CursorIcon)
    ensures
        copy == *icon,
;

/// `CursorIcon`'s `==`. The enum derives `PartialEq` and has no fields, so two
/// icons compare equal exactly when they are the same icon.
#[verifier::external_body]
pub(crate) fn cursor_icons_equal(a: CursorIcon, b: CursorIcon) -> (equal: bool)
    ensures
        equal == (a == b),
{
    a == b
}

/// The window's cursor: its mode and visibility, whether it is inside the
/// window, where it last was, and the icon selected for it.
#[derive(Debug, Clone, Copy)]
pub struct Cursor {
    pub mode: CursorMode,
    pub visibility: Visibility,
    pub inside_window: bool,
    pub last_position: PhysicalPosition,
    pub selected_icon: CursorIcon,
}

impl Cursor {
    /// The cursor of a new window: shown, outside the window, last seen at the
    /// origin.
    pub fn new(mode: CursorMode, selected_icon: CursorIcon) -> (cursor: Self)
        ensures
            cursor.mode == mode,
            cursor.visibility == Visibility::Shown,
            !cursor.inside_window,
            cursor.last_position == (PhysicalPosition { x: 0, y: 0 }),
            cursor.selected_icon == selected_icon,
    {
        Cursor {
            mode,
            visibility: Visibility::Shown,
            inside_window: false,
            last_position: PhysicalPosition { x: 0, y: 0 },
            selected_icon,
        }
    }
}

} // verus!

//! The style part of a window's state.

use vstd::prelude::*;

use super::data::{Fullscreen, Visibility};

verus! {

/// How a window is to be shown and framed.
#[derive(Debug, Clone, Copy, PartialEq, Eq, Structural)]
pub struct StyleInfo {
    pub visibility: Visibility,
    pub decorations: Visibility,
    pub fullscreen: Option<Fullscreen>,
    pub resizeable: bool,
}

} // verus!

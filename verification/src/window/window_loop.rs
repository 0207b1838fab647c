//! The loop that runs a window's thread.

use vstd::prelude::*;

verus! {

/// The loop that runs a window's thread.
#[derive(Debug, Clone, Copy, PartialEq, Eq, Structural)]
pub struct WindowLoop;

impl WindowLoop {
    pub fn new() -> (window_loop: Self)
        ensures
            window_loop == WindowLoop,
    {
        Self
    }
}

impl Default for WindowLoop {
    fn default() -> (window_loop: Self)
        ensures
            window_loop == WindowLoop,
    {
        Self::new()
    }
}

} // verus!

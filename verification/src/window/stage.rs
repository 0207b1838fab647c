//! The life cycle of a window.

use vstd::prelude::*;

verus! {

/// The stage of a window's life cycle: set up, ready to loop, looping over
/// messages, closing, out of the loop, destroyed.
#[derive(Debug, Clone, Copy, PartialEq, Eq, Structural)]
pub enum Stage {
    Setup,
    Ready,
    Looping,
    Closing,
    ExitLoop,
    Destroyed,
}

} // verus!

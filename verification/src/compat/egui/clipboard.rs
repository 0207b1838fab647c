//! The clipboard that `egui` reads and writes.

use raw_window_handle::RawDisplayHandle;
use vstd::prelude::*;

verus! {

#[verifier::external_type_specification]
#[verifier::external_body]
pub struct ExRawDisplayHandle(RawDisplayHandle);

/// Handles interfacing with the clipboard.
///
/// This is the fallback clipboard: it holds its text within the app, with no
/// connection to the OS clipboard.
pub struct Clipboard {
    /// Fallback manual clipboard.
    clipboard: String,
}

impl View for Clipboard {
    type V = Seq<char>;

    /// The text on the clipboard.
    closed spec fn view(&self) -> Seq<char> {
        self.clipboard@
    }
}

impl Clipboard {
    /// Construct a new instance: an empty clipboard.
    pub fn new(_raw_display_handle: Option<RawDisplayHandle>) -> (clipboard: Self)
        ensures
            clipboard@ == Seq::<char>::empty(),
    {
        Self { clipboard: String::new() }
    }

    /// The text on the clipboard.
    pub fn get(&mut self) -> (text: Option<String>)
        ensures
            text matches Some(t) && t@ == old(self)@,
            final(self)@ == old(self)@,
    {
        Some(self.clipboard.clone())
    }

    /// Puts `text` on the clipboard.
    pub fn set(&mut self, text: String)
        ensures
            final(self)@ == text@,
    {
        self.clipboard = text;
    }
}

} // verus!

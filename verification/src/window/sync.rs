//! Requests to the window thread and its answers, as thread messages.

use vstd::prelude::*;
use vstd::std_specs::convert::TryFromSpecImpl;

use super::data::Visibility;
use crate::win32;

verus! {

/// A request to the window thread.
#[derive(Debug, Clone, PartialEq)]
pub enum ThreadCommand {
    CloseConfirmed,
    ShowWindow(Visibility),
    RequestRedraw,
    SetWindowText(String),
}

/// An answer of the main thread.
#[derive(Debug, Clone, Copy, PartialEq, Eq, Structural)]
pub enum Response {
    NextFrame,
}

/// The application-defined window messages of the window thread, numbered
/// from `WM_APP` on.
#[derive(Debug, Clone, Copy, PartialEq, Eq, Structural)]
pub enum ThreadMessage {
    Empty,
    CloseConfirmed,
    ShowWindow,
    SetWindowText,
    RequestRedraw,
}

impl ThreadMessage {
    /// The message's number: `WM_APP` for `Empty`, then one more for each of
    /// the following messages.
    pub open spec fn spec_code(self) -> u32 {
        match self {
            ThreadMessage::Empty => win32::WM_APP,
            ThreadMessage::CloseConfirmed => (win32::WM_APP + 1) as u32,
            ThreadMessage::ShowWindow => (win32::WM_APP + 2) as u32,
            ThreadMessage::SetWindowText => (win32::WM_APP + 3) as u32,
            ThreadMessage::RequestRedraw => (win32::WM_APP + 4) as u32,
        }
    }

    /// The message's number (see [`ThreadMessage::spec_code`]).
    pub fn code(self) -> (code: u32)
        ensures
            code == self.spec_code(),
    {
        match self {
            ThreadMessage::Empty => win32::WM_APP,
            ThreadMessage::CloseConfirmed => win32::WM_APP + 1,
            ThreadMessage::ShowWindow => win32::WM_APP + 2,
            ThreadMessage::SetWindowText => win32::WM_APP + 3,
            ThreadMessage::RequestRedraw => win32::WM_APP + 4,
        }
    }
}

/// The message whose number is `value`, or `Err(())` where no message has it.
pub open spec fn spec_thread_message_of(value: u32) -> Result<ThreadMessage, ()> {
    if value == win32::WM_APP {
        Ok(ThreadMessage::Empty)
    } else if value == win32::WM_APP + 1 {
        Ok(ThreadMessage::CloseConfirmed)
    } else if value == win32::WM_APP + 2 {
        Ok(ThreadMessage::ShowWindow)
    } else if value == win32::WM_APP + 3 {
        Ok(ThreadMessage::SetWindowText)
    } else if value == win32::WM_APP + 4 {
        Ok(ThreadMessage::RequestRedraw)
    } else {
        Err(())
    }
}

impl TryFrom<u32> for ThreadMessage {
    type Error = ();

    fn try_from(value: u32) -> (message: Result<Self, Self::Error>) {
        if value == ThreadMessage::Empty.code() {
            Ok(Self::Empty)
        } else if value == ThreadMessage::CloseConfirmed.code() {
            Ok(Self::CloseConfirmed)
        } else if value == ThreadMessage::ShowWindow.code() {
            Ok(Self::ShowWindow)
        } else if value == ThreadMessage::SetWindowText.code() {
            Ok(Self::SetWindowText)
        } else if value == ThreadMessage::RequestRedraw.code() {
            Ok(Self::RequestRedraw)
        } else {
            Err(())
        }
    }
}

impl TryFromSpecImpl<u32> for ThreadMessage {
    open spec fn obeys_try_from_spec() -> bool {
        true
    }

    open spec fn try_from_spec(v: u32) -> Result<Self, Self::Error> {
        spec_thread_message_of(v)
    }
}

// LAWS
/// A thread message is read back from its number, so no two messages share a
/// number.
pub proof fn lemma_thread_message_round_trip(message: ThreadMessage)
    ensures
        spec_thread_message_of(message.spec_code()) == Ok::<ThreadMessage, ()>(message),
{
}

} // verus!

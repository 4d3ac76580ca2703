//! The command by which the hosted page asks for a badge.

use crate::handle::WindowHandle;
use crate::update::{BadgeUpdate, Stage};
use vstd::prelude::*;
use vstd::string::StringExecFns;

verus! {

/// Why a command was not carried out.
#[derive(Clone, Copy, Debug, PartialEq, Eq, Structural)]
pub enum CommandError {
    /// The windowing layer could not give out the window's native handle.
    WindowUnavailable,
}

impl CommandError {
    /// The text of the error.
    pub open spec fn text(self) -> Seq<char> {
        match self {
            CommandError::WindowUnavailable => "hwnd not available"@,
        }
    }

    /// The text that the sender of the command is given.
    pub fn message(&self) -> (text: String)
        ensures
            text@ == self.text(),
    {
        match self {
            CommandError::WindowUnavailable => String::from_str("hwnd not available"),
        }
    }
}

/// Takes the command to show `count` on the window's taskbar button.
///
/// The command fails only where the window's handle could not be had, and
/// then nothing is to be done. Otherwise it gives the update to carry out,
/// with nothing called yet. How the update goes is never reported to the
/// sender: the badge is best effort.
pub fn set_badge(window: Option<WindowHandle>, count: u32) -> (reply: Result<
    BadgeUpdate,
    CommandError,
>)
    ensures
        window is None <==> reply is Err,
        reply matches Err(error) ==> error == CommandError::WindowUnavailable,
        reply matches Ok(update) ==> update == (BadgeUpdate {
            window: window.unwrap(),
            count,
            stage: Stage::Acquiring,
        }),
{
    match window {
        Some(handle) => Ok(BadgeUpdate::begin(handle, count)),
        None => Err(CommandError::WindowUnavailable),
    }
}

} // verus!

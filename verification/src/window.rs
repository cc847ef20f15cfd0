//! The picture-in-picture window as the commands see it: its label, the calls
//! that are made on it, and the answer to whether it is open.

use vstd::prelude::*;

verus! {

/// The label under which the shell registers the picture-in-picture window,
/// and by which the commands look it up.
pub const PIP_LABEL: &'static str = "pip";

/// A call that a command has the shell make on the window.
#[derive(Clone, Copy, PartialEq, Eq, Debug, Structural)]
pub enum WindowCall {
    /// Make the window visible.
    Show,
    /// Bring the window to the front and give it the focus.
    SetFocus,
    /// Make the window invisible.
    Hide,
}

/// The answer to "is the window open?" for each thing the shell can have
/// seen: no window (`None`), a window that told whether it is visible, or a
/// window whose answer failed with the text of an error.
pub open spec fn open_reply(seen: Option<Result<bool, String>>) -> Result<bool, String> {
    match seen {
        None => Ok(false),
        Some(visible) => visible,
    }
}

/// Answers whether the picture-in-picture window is open.
///
/// A window that does not exist is not open, and that is no error. A window
/// that exists answers for itself: its visibility, or its error, is handed on
/// untouched.
pub fn is_pip_window_open(seen: Option<Result<bool, String>>) -> (reply: Result<bool, String>)
    ensures
        reply == open_reply(seen),
{
    match seen {
        None => Ok(false),
        Some(visible) => visible,
    }
}

} // verus!

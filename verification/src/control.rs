//! Small decisions around controlling a window: what to do about the focus,
//! whether a launch succeeded, and where the text in a buffer of the window
//! system ends.

use vstd::prelude::*;

verus! {

/// The largest result of a launch through the shell that still reports a
/// failure.
pub const LAUNCH_FAILURE_LIMIT: isize = 32;

/// What is to be done about a window's focus.
#[derive(Clone, Copy, Debug, PartialEq, Eq, Structural)]
pub enum FocusAction {
    /// Bring the window to the foreground.
    Focus,
    /// Hand the focus on to the next window.
    Unfocus,
}

/// A window that is asked to give up the focus does so only when it has the
/// focus: it has it when it is the foreground window.
pub fn should_unfocus(hwnd: i32, foreground: i32) -> (yes: bool)
    ensures
        yes == (hwnd == foreground),
{
    hwnd == foreground
}

/// Toggling the focus takes it from the window that has it and gives it to
/// one that has not.
pub fn toggle_focus_action(hwnd: i32, foreground: i32) -> (action: FocusAction)
    ensures
        action == (if hwnd == foreground {
            FocusAction::Unfocus
        } else {
            FocusAction::Focus
        }),
{
    if hwnd == foreground {
        FocusAction::Unfocus
    } else {
        FocusAction::Focus
    }
}

/// Whether a launch through the shell succeeded: its result is then greater
/// than 32.
pub fn launch_succeeded(result: isize) -> (ok: bool)
    ensures
        ok == (result > LAUNCH_FAILURE_LIMIT),
{
    result > LAUNCH_FAILURE_LIMIT
}

/// Where the text in a zero-terminated UTF-16 buffer ends: at the first zero
/// unit, or at the end of a buffer that holds no zero.
pub fn wide_text_length(buffer: &Vec<u16>) -> (n: usize)
    ensures
        n <= buffer.len(),
        forall|i: int| 0 <= i < n ==> buffer[i] != 0,
        n < buffer.len() ==> buffer[n as int] == 0,
{
    let mut n: usize = 0;
    while n < buffer.len() && buffer[n] != 0
        invariant
            n <= buffer.len(),
            forall|i: int| 0 <= i < n ==> buffer[i] != 0,
        decreases buffer.len() - n,
    {
        n += 1;
    }
    n
}

} // verus!

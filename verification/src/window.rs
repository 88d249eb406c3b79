//! The windows of the shell.

use vstd::prelude::*;

verus! {

/// Label of the main window.
pub const MAIN_WINDOW: &'static str = "main";

/// Label of the managed sign-in window. The shell owns it and can close it for
/// sure; a popup of the engine's own could linger as a second softphone.
pub const LOGIN_WINDOW: &'static str = "connect-login";

/// What the maximize button does.
#[derive(Debug, Clone, Copy, PartialEq, Eq, Structural)]
pub enum MaximizeStep {
    /// Fill the screen.
    Maximize,
    /// Go back to the former size.
    Unmaximize,
}

/// What a sign-in request does.
#[derive(Debug, Clone, Copy, PartialEq, Eq, Structural)]
pub enum LoginStep {
    /// Bring the sign-in window that is there to the front.
    Focus,
    /// Open a sign-in window.
    Open,
}

/// Turns a maximized window back and maximizes any other.
pub fn window_toggle_maximize(is_maximized: bool) -> (r: MaximizeStep)
    ensures
        r == (if is_maximized {
            MaximizeStep::Unmaximize
        } else {
            MaximizeStep::Maximize
        }),
{
    if is_maximized {
        MaximizeStep::Unmaximize
    } else {
        MaximizeStep::Maximize
    }
}

/// Opens a sign-in window unless there is one already.
pub fn open_login_window(is_open: bool) -> (r: LoginStep)
    ensures
        r == (if is_open {
            LoginStep::Focus
        } else {
            LoginStep::Open
        }),
{
    if is_open {
        LoginStep::Focus
    } else {
        LoginStep::Open
    }
}

/// The maximize button turns the window over: a maximized window is not maximized
/// afterwards, and any other is.
pub proof fn law_maximize_button_turns_over(is_maximized: bool, r: MaximizeStep)
    requires
        call_ensures(window_toggle_maximize, (is_maximized,), r),
    ensures
        r == MaximizeStep::Maximize <==> !is_maximized,
        r == MaximizeStep::Unmaximize <==> is_maximized,
{
}

/// There is never a second sign-in window: one is opened exactly where there is none.
pub proof fn law_one_sign_in_window(is_open: bool, r: LoginStep)
    requires
        call_ensures(open_login_window, (is_open,), r),
    ensures
        r == LoginStep::Open <==> !is_open,
        r == LoginStep::Focus <==> is_open,
{
}

} // verus!

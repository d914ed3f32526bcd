use crate::text::{chars_of, occurs_at, starts_at};
use vstd::prelude::*;

verus! {

/// How long a login may take, in milliseconds.
pub const LOGIN_TIMEOUT_MS: u64 = 600_000;

/// How long the login waits between two looks at the window, in milliseconds.
pub const LOGIN_POLL_MS: u64 = 50;

/// What a login does next.
#[derive(Debug, Clone, PartialEq, Eq)]
pub enum LoginStep {
    /// The time is up: close the window; the login yields nothing.
    TimedOut,
    /// The window is gone: the login yields nothing.
    Closed,
    /// The page handed out this code: close the window and finish with it.
    Finish(String),
    /// Nothing yet: wait for [`LOGIN_POLL_MS`] and look again.
    Wait,
}

/// The mathematical value of a [`LoginStep`].
pub enum LoginStepView {
    TimedOut,
    Closed,
    Finish(Seq<char>),
    Wait,
}

impl View for LoginStep {
    type V = LoginStepView;

    open spec fn view(&self) -> LoginStepView {
        match self {
            LoginStep::TimedOut => LoginStepView::TimedOut,
            LoginStep::Closed => LoginStepView::Closed,
            LoginStep::Finish(code) => LoginStepView::Finish(code@),
            LoginStep::Wait => LoginStepView::Wait,
        }
    }
}

/// Where the sign-in page sends the browser when it is done.
pub open spec fn redirect_prefix() -> Seq<char> {
    "https://login.live.com/oauth20_desktop.srf"@
}

/// What a login does next, from the time it has taken, whether its window
/// is still there, the address the window shows and the `code` parameter
/// of that address. The time is looked at first, then the window; a code
/// counts only on the page that the sign-in ends on.
pub open spec fn next_step(
    elapsed_ms: u64,
    window_open: bool,
    url: Seq<char>,
    code: Option<Seq<char>>,
) -> LoginStepView {
    if elapsed_ms >= LOGIN_TIMEOUT_MS {
        LoginStepView::TimedOut
    } else if !window_open {
        LoginStepView::Closed
    } else if occurs_at(url, 0, redirect_prefix()) && code is Some {
        LoginStepView::Finish(code->Some_0)
    } else {
        LoginStepView::Wait
    }
}

/// Decides what a login does next.
pub fn login_step(elapsed_ms: u64, window_open: bool, url: &str, code: Option<String>) -> (r:
    LoginStep)
    ensures
        r@ == next_step(elapsed_ms, window_open, url@, code.deep_view()),
{
    if elapsed_ms >= LOGIN_TIMEOUT_MS {
        return LoginStep::TimedOut;
    }
    if !window_open {
        return LoginStep::Closed;
    }
    let address = chars_of(url);
    let prefix = chars_of("https://login.live.com/oauth20_desktop.srf");
    if starts_at(&address, 0, &prefix) {
        match code {
            Some(found) => LoginStep::Finish(found),
            None => LoginStep::Wait,
        }
    } else {
        LoginStep::Wait
    }
}

} // verus!

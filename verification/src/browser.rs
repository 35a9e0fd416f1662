//! What a login run asks of the browser, piece by piece: how it is started,
//! when a wait for an address ends, and what is done to the login form.

use crate::session::{Page, LOGIN_FORM, PORTAL_HOME};
use crate::text::{chars_of, same_text};
use crate::MY_USER_AGENT;
use vstd::prelude::*;

verus! {

// ---------------------------------------------------------------------------
// Starting the browser
// ---------------------------------------------------------------------------

/// Width of the browser's window and viewport.
pub const WINDOW_WIDTH: u32 = 1440;

/// Height of the browser's window and viewport.
pub const WINDOW_HEIGHT: u32 = 900;

/// The argument that sets the browser's identification, up to the value.
pub const USER_AGENT_ARGUMENT: &'static str = "--user-agent=";

/// The argument that keeps the browser from showing a window.
pub const HEADLESS_ARGUMENT: &'static str = "--headless";

/// How the browser is started.
#[derive(Debug)]
pub struct LaunchSettings {
    /// Width of window and viewport.
    pub width: u32,
    /// Height of window and viewport.
    pub height: u32,
    /// Whether the browser is built to show a window.
    pub with_head: bool,
    /// Whether the browser's sandbox stays on.
    pub sandbox: bool,
    /// Further arguments, in order.
    pub arguments: Vec<String>,
}

/// The arguments a browser is started with: its identification and, for a
/// run without a window, the headless switch.
pub open spec fn arguments_of(headless: bool) -> Seq<Seq<char>> {
    if headless {
        seq![USER_AGENT_ARGUMENT@ + MY_USER_AGENT@, HEADLESS_ARGUMENT@]
    } else {
        seq![USER_AGENT_ARGUMENT@ + MY_USER_AGENT@]
    }
}

/// How the browser is started: a window of 1440 by 900, built with a head,
/// the sandbox off, and the arguments of [`arguments_of`].
pub fn launch_settings(headless: bool) -> (settings: LaunchSettings)
    ensures
        settings.width == WINDOW_WIDTH,
        settings.height == WINDOW_HEIGHT,
        settings.with_head,
        !settings.sandbox,
        settings.arguments.deep_view() == arguments_of(headless),
{
    let mut identification = String::from_str(USER_AGENT_ARGUMENT);
    identification.append(MY_USER_AGENT);
    let mut arguments: Vec<String> = Vec::new();
    arguments.push(identification);
    if headless {
        arguments.push(String::from_str(HEADLESS_ARGUMENT));
    }
    assert(arguments.deep_view() =~= arguments_of(headless));
    LaunchSettings {
        width: WINDOW_WIDTH,
        height: WINDOW_HEIGHT,
        with_head: true,
        sandbox: false,
        arguments,
    }
}

// ---------------------------------------------------------------------------
// Waiting for an address
// ---------------------------------------------------------------------------

/// Milliseconds between two looks at the browser's address.
pub const POLL_INTERVAL_MS: u64 = 100;

/// Nanoseconds in a millisecond.
pub const NANOS_PER_MILLI: u128 = 1_000_000;

/// What a look at the browser's address leads to.
#[derive(Debug, Clone, Copy, PartialEq, Eq, Structural)]
pub enum Poll {
    /// The address is the one waited for.
    Reached,
    /// It is not, and the time is over.
    TimedOut,
    /// It is not: look again after `millis`.
    Wait { millis: u64 },
}

/// The address of `page`.
pub open spec fn url_of(page: Page) -> Seq<char> {
    match page {
        Page::LoginForm => LOGIN_FORM@,
        Page::Home => PORTAL_HOME@,
    }
}

/// The address of `page`.
pub fn page_url(page: Page) -> (url: &'static str)
    ensures
        url@ == url_of(page),
{
    match page {
        Page::LoginForm => LOGIN_FORM,
        Page::Home => PORTAL_HOME,
    }
}

/// What a look at the address leads to: the end of the wait where the
/// address is the target, whatever the time; its end also once more than
/// the timeout has passed; another look after [`POLL_INTERVAL_MS`] otherwise.
pub open spec fn polled(
    current: Seq<char>,
    target: Seq<char>,
    elapsed_nanos: u128,
    timeout_ms: u64,
) -> Poll {
    if current == target {
        Poll::Reached
    } else if elapsed_nanos > timeout_ms * NANOS_PER_MILLI {
        Poll::TimedOut
    } else {
        Poll::Wait { millis: POLL_INTERVAL_MS }
    }
}

/// One look of a wait for `target_url`: `current_url` is the browser's
/// address now, `elapsed_nanos` the time since the wait began.
pub fn wait_for_url(current_url: &str, target_url: &str, elapsed_nanos: u128, timeout_ms: u64) -> (poll:
    Poll)
    ensures
        poll == polled(current_url@, target_url@, elapsed_nanos, timeout_ms),
{
    let limit: u128 = timeout_ms as u128 * NANOS_PER_MILLI;
    if same_text(&chars_of(current_url), &chars_of(target_url)) {
        Poll::Reached
    } else if elapsed_nanos > limit {
        Poll::TimedOut
    } else {
        Poll::Wait { millis: POLL_INTERVAL_MS }
    }
}

// ---------------------------------------------------------------------------
// The login form
// ---------------------------------------------------------------------------

/// One thing done to the login form.
#[derive(Debug, Clone, Copy, PartialEq, Eq, Structural)]
pub enum LoginStep {
    /// Click the field for the user's name and type the name.
    TypeUserId,
    /// Click the field for the password and type the password.
    TypePassword,
    /// Click the link that sends the form.
    Submit,
}

/// Selector of the field for the user's name. A page that has no such
/// element shows no login form.
pub const USER_ID_FIELD: &'static str = "input#userId";

/// Selector of the field for the password.
pub const PASSWORD_FIELD: &'static str = "input#password";

/// Selector of the link that sends the form.
pub const SUBMIT_LINK: &'static str = "a#loginSubmit";

impl LoginStep {
    /// The selector of the element that the step is done to.
    pub open spec fn selector_of(self) -> Seq<char> {
        match self {
            LoginStep::TypeUserId => USER_ID_FIELD@,
            LoginStep::TypePassword => PASSWORD_FIELD@,
            LoginStep::Submit => SUBMIT_LINK@,
        }
    }

    /// The selector of the element that the step is done to.
    pub fn selector(self) -> (selector: &'static str)
        ensures
            selector@ == self.selector_of(),
    {
        match self {
            LoginStep::TypeUserId => USER_ID_FIELD,
            LoginStep::TypePassword => PASSWORD_FIELD,
            LoginStep::Submit => SUBMIT_LINK,
        }
    }
}

/// What is done on the page that a run was sent to: the three steps of a
/// login where the page shows the form, nothing where it does not (the run
/// is past the login already).
pub open spec fn steps_of(form_present: bool) -> Seq<LoginStep> {
    if form_present {
        seq![LoginStep::TypeUserId, LoginStep::TypePassword, LoginStep::Submit]
    } else {
        Seq::empty()
    }
}

/// What is done on the page that a run was sent to.
pub fn login_if_needed(form_present: bool) -> (steps: Vec<LoginStep>)
    ensures
        steps@ == steps_of(form_present),
{
    let mut steps: Vec<LoginStep> = Vec::new();
    if form_present {
        steps.push(LoginStep::TypeUserId);
        steps.push(LoginStep::TypePassword);
        steps.push(LoginStep::Submit);
    }
    assert(steps@ =~= steps_of(form_present));
    steps
}

} // verus!

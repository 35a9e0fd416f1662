//! Acquiring a session token: the decisions of one login run.
//!
//! A run drives a browser through the portal's login. The browser is the
//! caller's; this module is the state machine behind it. The caller begins
//! with [`begin`], carries out the action it is handed, reports what
//! happened as an event to [`step`], and goes on until the action is
//! [`SessionAction::Stop`]. The run then stands at [`SessionState::Done`]
//! with a token, or at [`SessionState::Failed`].

use crate::text::{chars_of, contains, has_substring, same_text};
use vstd::prelude::*;

verus! {

/// Name of the session cookie.
pub const SESSION_COOKIE: &'static str = "JSESSIONID";

/// What the value of the session cookie holds once the login has reached
/// the authenticated area.
pub const SESSION_MARKER: &'static str = "chusa_servlet_HAKSA01";

/// Address of the portal: where a run enters, and where a login ends.
pub const PORTAL_HOME: &'static str = "https://mhaksa.ajou.ac.kr:30443/index.html";

/// Address of the login form that the portal sends an unknown visitor to.
pub const LOGIN_FORM: &'static str = "https://sso.ajou.ac.kr/jsp/sso/ip/login_form.jsp";

/// Milliseconds a run waits for the login form, and for the portal after it.
pub const REDIRECT_WAIT_MS: u64 = 5000;

/// Milliseconds a run waits for the portal before it reads the cookie again.
pub const TOKEN_WAIT_MS: u64 = 1000;

/// How often a run reads the cookie again after a first value without the
/// marker, before it gives up.
pub const TOKEN_READS: u32 = 1000;

// ---------------------------------------------------------------------------
// Cookies and tokens
// ---------------------------------------------------------------------------

/// One cookie of the browser's jar.
#[derive(Debug)]
pub struct Cookie {
    pub name: String,
    pub value: String,
}

/// A [`Cookie`] in contracts.
pub struct CookieView {
    pub name: Seq<char>,
    pub value: Seq<char>,
}

impl DeepView for Cookie {
    type V = CookieView;

    open spec fn deep_view(&self) -> CookieView {
        CookieView { name: self.name@, value: self.value@ }
    }
}

/// The value of the first cookie called `name`, if there is one.
pub open spec fn cookie_value(cookies: Seq<CookieView>, name: Seq<char>) -> Option<Seq<char>>
    decreases cookies.len(),
{
    if cookies.len() == 0 {
        None
    } else if cookies[0].name == name {
        Some(cookies[0].value)
    } else {
        cookie_value(cookies.drop_first(), name)
    }
}

/// Whether `token` shows that the authenticated area was reached.
pub open spec fn authenticated(token: Seq<char>) -> bool {
    contains(token, SESSION_MARKER@)
}

/// The value of the session cookie among `cookies`, if it is there.
pub fn get_jsession_id(cookies: &Vec<Cookie>) -> (value: Option<String>)
    ensures
        value.deep_view() == cookie_value(cookies.deep_view(), SESSION_COOKIE@),
{
    let name = chars_of(SESSION_COOKIE);
    let mut i: usize = 0;
    assert(cookies.deep_view().skip(0) == cookies.deep_view());
    while i < cookies.len()
        invariant
            i <= cookies.len(),
            name@ == SESSION_COOKIE@,
            cookie_value(cookies.deep_view(), SESSION_COOKIE@) == cookie_value(
                cookies.deep_view().skip(i as int),
                SESSION_COOKIE@,
            ),
        decreases cookies.len() - i,
    {
        let ghost rest = cookies.deep_view().skip(i as int);
        assert(rest[0] == cookies[i as int].deep_view());
        assert(rest.drop_first() == cookies.deep_view().skip(i + 1));
        if same_text(&chars_of(cookies[i].name.as_str()), &name) {
            return Some(cookies[i].value.clone());
        }
        i = i + 1;
    }
    None
}

/// Whether `token` shows that the authenticated area was reached.
pub fn is_authenticated(token: &str) -> (valid: bool)
    ensures
        valid == authenticated(token@),
{
    has_substring(&chars_of(token), &chars_of(SESSION_MARKER))
}

// ---------------------------------------------------------------------------
// States, events, actions
// ---------------------------------------------------------------------------

/// A page a run waits for.
#[derive(Debug, Clone, Copy, PartialEq, Eq, Structural)]
pub enum Page {
    /// The login form, at [`LOGIN_FORM`].
    LoginForm,
    /// The portal, at [`PORTAL_HOME`].
    Home,
}

/// Why a run failed.
#[derive(Debug, Clone, Copy, PartialEq, Eq, Structural)]
pub enum SessionError {
    /// The browser could not be started.
    LaunchFailed,
    /// The browser reported an error after it was started.
    BrowserFailed,
    /// The jar held no session cookie.
    TokenNotFound,
    /// The session cookie never came to hold the marker.
    TokenNeverValid,
    /// An event was reported that the state did not ask for.
    OutOfTurn,
}

/// What the caller is to do next.
#[derive(Debug, Clone, Copy, PartialEq, Eq, Structural)]
pub enum SessionAction {
    /// Start the browser.
    Launch,
    /// Open the portal and wait until it has been navigated to, five
    /// seconds at most.
    Open,
    /// Poll the address of the page until it is that of `page`, for
    /// `timeout_ms` at most.
    AwaitUrl { page: Page, timeout_ms: u64 },
    /// Fill in and send the login form, if the page shows one.
    Login,
    /// Read the browser's cookie jar.
    ReadCookies,
    /// Close the browser.
    Close,
    /// Nothing: the run is over.
    Stop,
}

/// What the caller reports.
#[derive(Debug)]
pub enum SessionEvent {
    /// The browser runs.
    Launched,
    /// The portal was opened, or the wait for it ran out.
    Opened,
    /// The poll ended: the address was reached, or the time ran out.
    UrlAwaited { reached: bool },
    /// The login form was sent, or there was none.
    LoginAttempted,
    /// The cookies of the jar.
    Cookies { cookies: Vec<Cookie> },
    /// The browser is closed.
    Closed,
    /// The action failed.
    Failure,
}

/// Where a run stands.
#[derive(Debug)]
pub enum SessionState {
    /// The browser is being started.
    Init,
    /// The portal is being opened.
    Navigating,
    /// Waiting to be sent to the login form.
    AwaitingRedirect,
    /// The login form is being filled in.
    LoggingIn,
    /// Waiting for the portal to show.
    AwaitingHome,
    /// The cookie jar is being read for the first time.
    ExtractingToken,
    /// The session cookie did not hold the marker yet: the portal is being
    /// waited for again (`reading` false) or the jar read again (`reading`
    /// true), with `reads_left` readings to go.
    ValidatingToken { reading: bool, reads_left: u32 },
    /// The browser is being closed, with the token or the failure that the
    /// run ends in.
    Closing { outcome: Result<String, SessionError> },
    /// The run is over and gave `token`.
    Done { token: String },
    /// The run is over and gave nothing.
    Failed { error: SessionError },
}

/// A [`SessionEvent`] in contracts.
pub enum EventView {
    Launched,
    Opened,
    UrlAwaited { reached: bool },
    LoginAttempted,
    Cookies { cookies: Seq<CookieView> },
    Closed,
    Failure,
}

/// A [`SessionState`] in contracts.
pub enum StateView {
    Init,
    Navigating,
    AwaitingRedirect,
    LoggingIn,
    AwaitingHome,
    ExtractingToken,
    ValidatingToken { reading: bool, reads_left: u32 },
    Closing { outcome: Result<Seq<char>, SessionError> },
    Done { token: Seq<char> },
    Failed { error: SessionError },
}

impl DeepView for SessionEvent {
    type V = EventView;

    open spec fn deep_view(&self) -> EventView {
        match self {
            SessionEvent::Launched => EventView::Launched,
            SessionEvent::Opened => EventView::Opened,
            SessionEvent::UrlAwaited { reached } => EventView::UrlAwaited { reached: *reached },
            SessionEvent::LoginAttempted => EventView::LoginAttempted,
            SessionEvent::Cookies { cookies } => EventView::Cookies {
                cookies: cookies.deep_view(),
            },
            SessionEvent::Closed => EventView::Closed,
            SessionEvent::Failure => EventView::Failure,
        }
    }
}

impl DeepView for SessionState {
    type V = StateView;

    open spec fn deep_view(&self) -> StateView {
        match self {
            SessionState::Init => StateView::Init,
            SessionState::Navigating => StateView::Navigating,
            SessionState::AwaitingRedirect => StateView::AwaitingRedirect,
            SessionState::LoggingIn => StateView::LoggingIn,
            SessionState::AwaitingHome => StateView::AwaitingHome,
            SessionState::ExtractingToken => StateView::ExtractingToken,
            SessionState::ValidatingToken { reading, reads_left } => StateView::ValidatingToken {
                reading: *reading,
                reads_left: *reads_left,
            },
            SessionState::Closing { outcome } => StateView::Closing {
                outcome: match outcome {
                    Ok(token) => Ok(token@),
                    Err(error) => Err(*error),
                },
            },
            SessionState::Done { token } => StateView::Done { token: token@ },
            SessionState::Failed { error } => StateView::Failed { error: *error },
        }
    }
}

// ---------------------------------------------------------------------------
// The transition
// ---------------------------------------------------------------------------

/// Whether a run is over at `state`.
pub open spec fn is_over(state: StateView) -> bool {
    state is Done || state is Failed
}

/// Giving the run up at `state` with `error`: a browser that was started is
/// closed first.
pub open spec fn abandoned(state: StateView, error: SessionError) -> (StateView, SessionAction) {
    match state {
        StateView::Init => (StateView::Failed { error: SessionError::LaunchFailed }, SessionAction::Stop),
        StateView::Closing { outcome: Err(first) } => (
            StateView::Failed { error: first },
            SessionAction::Stop,
        ),
        StateView::Closing { outcome: Ok(_) } => (StateView::Failed { error }, SessionAction::Stop),
        _ => (StateView::Closing { outcome: Err(error) }, SessionAction::Close),
    }
}

/// What a reading of the jar leads to, with `reads_left` readings to go
/// after it: the end of the run where the session cookie is missing, or
/// holds the marker, or no reading is left; another wait for the portal
/// otherwise.
pub open spec fn judged(cookies: Seq<CookieView>, reads_left: u32) -> (StateView, SessionAction) {
    match cookie_value(cookies, SESSION_COOKIE@) {
        None => (
            StateView::Closing { outcome: Err(SessionError::TokenNotFound) },
            SessionAction::Close,
        ),
        Some(token) => if authenticated(token) {
            (StateView::Closing { outcome: Ok(token) }, SessionAction::Close)
        } else if reads_left == 0 {
            (
                StateView::Closing { outcome: Err(SessionError::TokenNeverValid) },
                SessionAction::Close,
            )
        } else {
            (
                StateView::ValidatingToken { reading: false, reads_left },
                SessionAction::AwaitUrl { page: Page::Home, timeout_ms: TOKEN_WAIT_MS },
            )
        },
    }
}

/// The state after `event` was reported at `state`, and the action to carry
/// out next.
///
/// An event that reports what the state asked for moves the run on. A
/// [`Failure`](EventView::Failure) gives the run up, and so does any other
/// event, as out of turn. A run that is over stays as it is.
pub open spec fn next(state: StateView, event: EventView) -> (StateView, SessionAction) {
    match (state, event) {
        (StateView::Done { .. }, _) | (StateView::Failed { .. }, _) => (state, SessionAction::Stop),
        (_, EventView::Failure) => abandoned(state, SessionError::BrowserFailed),
        (StateView::Init, EventView::Launched) => (StateView::Navigating, SessionAction::Open),
        (StateView::Navigating, EventView::Opened) => (
            StateView::AwaitingRedirect,
            SessionAction::AwaitUrl { page: Page::LoginForm, timeout_ms: REDIRECT_WAIT_MS },
        ),
        (StateView::AwaitingRedirect, EventView::UrlAwaited { reached: true }) => (
            StateView::LoggingIn,
            SessionAction::Login,
        ),
        (StateView::AwaitingRedirect, EventView::UrlAwaited { reached: false })
        | (StateView::LoggingIn, EventView::LoginAttempted) => (
            StateView::AwaitingHome,
            SessionAction::AwaitUrl { page: Page::Home, timeout_ms: REDIRECT_WAIT_MS },
        ),
        (StateView::AwaitingHome, EventView::UrlAwaited { .. }) => (
            StateView::ExtractingToken,
            SessionAction::ReadCookies,
        ),
        (StateView::ExtractingToken, EventView::Cookies { cookies }) => judged(
            cookies,
            TOKEN_READS,
        ),
        (StateView::ValidatingToken { reading: false, reads_left }, EventView::UrlAwaited { .. }) => (
            StateView::ValidatingToken { reading: true, reads_left },
            SessionAction::ReadCookies,
        ),
        (StateView::ValidatingToken { reading: true, reads_left }, EventView::Cookies { cookies }) => judged(
            cookies,
            if reads_left > 0 {
                (reads_left - 1) as u32
            } else {
                0
            },
        ),
        (StateView::Closing { outcome: Ok(token) }, EventView::Closed) => (
            StateView::Done { token },
            SessionAction::Stop,
        ),
        (StateView::Closing { outcome: Err(error) }, EventView::Closed) => (
            StateView::Failed { error },
            SessionAction::Stop,
        ),
        _ => abandoned(state, SessionError::OutOfTurn),
    }
}

/// Whether the token that `state` carries, if it carries one, shows that the
/// authenticated area was reached.
pub open spec fn sound(state: StateView) -> bool {
    match state {
        StateView::Closing { outcome: Ok(token) } => authenticated(token),
        StateView::Done { token } => authenticated(token),
        _ => true,
    }
}

/// The state of a run that began at `state` after the events `events`.
pub open spec fn run(state: StateView, events: Seq<EventView>) -> StateView
    decreases events.len(),
{
    if events.len() == 0 {
        state
    } else {
        next(run(state, events.drop_last()), events.last()).0
    }
}

/// How many events a run at `state` can take at most before it is over.
pub open spec fn events_left(state: StateView) -> nat {
    match state {
        StateView::Init => 2 * TOKEN_READS as nat + 9,
        StateView::Navigating => 2 * TOKEN_READS as nat + 8,
        StateView::AwaitingRedirect => 2 * TOKEN_READS as nat + 7,
        StateView::LoggingIn => 2 * TOKEN_READS as nat + 6,
        StateView::AwaitingHome => 2 * TOKEN_READS as nat + 5,
        StateView::ExtractingToken => 2 * TOKEN_READS as nat + 4,
        StateView::ValidatingToken { reading: false, reads_left } => 2 * reads_left as nat + 3,
        StateView::ValidatingToken { reading: true, reads_left } => 2 * reads_left as nat + 2,
        StateView::Closing { .. } => 1,
        StateView::Done { .. } => 0,
        StateView::Failed { .. } => 0,
    }
}

/// No event makes a state carry a token that does not show the
/// authenticated area, unless the state before carried one.
pub proof fn law_step_keeps_tokens_sound(state: StateView, event: EventView)
    requires
        sound(state),
    ensures
        sound(next(state, event).0),
{
}

/// The token that a run gives always shows that the authenticated area was
/// reached, whatever was reported on the way.
pub proof fn law_returned_token_is_authenticated(events: Seq<EventView>)
    ensures
        sound(run(StateView::Init, events)),
        run(StateView::Init, events) matches StateView::Done { token } ==> authenticated(token),
    decreases events.len(),
{
    if events.len() > 0 {
        law_returned_token_is_authenticated(events.drop_last());
        law_step_keeps_tokens_sound(run(StateView::Init, events.drop_last()), events.last());
    }
}

/// Every event brings a run nearer to its end, and a run that is over stays
/// where it is: no wait goes on for ever.
pub proof fn law_every_run_ends(state: StateView, event: EventView)
    requires
        state matches StateView::ValidatingToken { reads_left, .. } ==> reads_left <= TOKEN_READS,
    ensures
        is_over(state) ==> next(state, event) == (state, SessionAction::Stop),
        !is_over(state) ==> events_left(next(state, event).0) < events_left(state),
        next(state, event).0 matches StateView::ValidatingToken { reads_left, .. } ==> reads_left
            <= TOKEN_READS,
        next(state, event).1 == SessionAction::Stop <==> is_over(next(state, event).0),
{
}

/// The state a run begins in, and its first action.
pub fn begin() -> (first: (SessionState, SessionAction))
    ensures
        first.0.deep_view() == StateView::Init,
        first.1 == SessionAction::Launch,
{
    (SessionState::Init, SessionAction::Launch)
}

fn abandon(state: SessionState, error: SessionError) -> (r: (SessionState, SessionAction))
    ensures
        (r.0.deep_view(), r.1) == abandoned(state.deep_view(), error),
{
    match state {
        SessionState::Init => (
            SessionState::Failed { error: SessionError::LaunchFailed },
            SessionAction::Stop,
        ),
        SessionState::Closing { outcome: Err(first) } => (
            SessionState::Failed { error: first },
            SessionAction::Stop,
        ),
        SessionState::Closing { outcome: Ok(_) } => (
            SessionState::Failed { error },
            SessionAction::Stop,
        ),
        _ => (SessionState::Closing { outcome: Err(error) }, SessionAction::Close),
    }
}

fn judge(cookies: &Vec<Cookie>, reads_left: u32) -> (r: (SessionState, SessionAction))
    ensures
        (r.0.deep_view(), r.1) == judged(cookies.deep_view(), reads_left),
{
    match get_jsession_id(cookies) {
        None => (
            SessionState::Closing { outcome: Err(SessionError::TokenNotFound) },
            SessionAction::Close,
        ),
        Some(token) => {
            if is_authenticated(token.as_str()) {
                (SessionState::Closing { outcome: Ok(token) }, SessionAction::Close)
            } else if reads_left == 0 {
                (
                    SessionState::Closing { outcome: Err(SessionError::TokenNeverValid) },
                    SessionAction::Close,
                )
            } else {
                (
                    SessionState::ValidatingToken { reading: false, reads_left },
                    SessionAction::AwaitUrl { page: Page::Home, timeout_ms: TOKEN_WAIT_MS },
                )
            }
        },
    }
}

/// The state after `event` was reported at `state`, and the action to carry
/// out next.
pub fn step(state: SessionState, event: SessionEvent) -> (r: (SessionState, SessionAction))
    ensures
        (r.0.deep_view(), r.1) == next(state.deep_view(), event.deep_view()),
        sound(state.deep_view()) ==> sound(r.0.deep_view()),
{
    match (state, event) {
        (SessionState::Done { token }, _) => (SessionState::Done { token }, SessionAction::Stop),
        (SessionState::Failed { error }, _) => (SessionState::Failed { error }, SessionAction::Stop),
        (state, SessionEvent::Failure) => abandon(state, SessionError::BrowserFailed),
        (SessionState::Init, SessionEvent::Launched) => (
            SessionState::Navigating,
            SessionAction::Open,
        ),
        (SessionState::Navigating, SessionEvent::Opened) => (
            SessionState::AwaitingRedirect,
            SessionAction::AwaitUrl { page: Page::LoginForm, timeout_ms: REDIRECT_WAIT_MS },
        ),
        (SessionState::AwaitingRedirect, SessionEvent::UrlAwaited { reached: true }) => (
            SessionState::LoggingIn,
            SessionAction::Login,
        ),
        (SessionState::AwaitingRedirect, SessionEvent::UrlAwaited { reached: false }) => (
            SessionState::AwaitingHome,
            SessionAction::AwaitUrl { page: Page::Home, timeout_ms: REDIRECT_WAIT_MS },
        ),
        (SessionState::LoggingIn, SessionEvent::LoginAttempted) => (
            SessionState::AwaitingHome,
            SessionAction::AwaitUrl { page: Page::Home, timeout_ms: REDIRECT_WAIT_MS },
        ),
        (SessionState::AwaitingHome, SessionEvent::UrlAwaited { .. }) => (
            SessionState::ExtractingToken,
            SessionAction::ReadCookies,
        ),
        (SessionState::ExtractingToken, SessionEvent::Cookies { cookies }) => judge(
            &cookies,
            TOKEN_READS,
        ),
        (
            SessionState::ValidatingToken { reading: false, reads_left },
            SessionEvent::UrlAwaited { .. },
        ) => (SessionState::ValidatingToken { reading: true, reads_left }, SessionAction::ReadCookies),
        (
            SessionState::ValidatingToken { reading: true, reads_left },
            SessionEvent::Cookies { cookies },
        ) => judge(
            &cookies,
            if reads_left > 0 {
                reads_left - 1
            } else {
                0
            },
        ),
        (SessionState::Closing { outcome: Ok(token) }, SessionEvent::Closed) => (
            SessionState::Done { token },
            SessionAction::Stop,
        ),
        (SessionState::Closing { outcome: Err(error) }, SessionEvent::Closed) => (
            SessionState::Failed { error },
            SessionAction::Stop,
        ),
        (state, _) => abandon(state, SessionError::OutOfTurn),
    }
}

} // verus!

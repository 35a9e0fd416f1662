use ajou_parser::browser::{
    launch_settings, login_if_needed, page_url, wait_for_url, LoginStep, Poll,
};
use ajou_parser::session::{
    begin, get_jsession_id, is_authenticated, step, Cookie, Page, SessionAction, SessionError,
    SessionEvent, SessionState, TOKEN_READS,
};

const VALID: &str = "abc.chusa_servlet_HAKSA01";
const EARLY: &str = "abc.sso_servlet";

fn cookie(name: &str, value: &str) -> Cookie {
    Cookie { name: name.to_string(), value: value.to_string() }
}

fn jar(value: &str) -> SessionEvent {
    SessionEvent::Cookies { cookies: vec![cookie("other", "x"), cookie("JSESSIONID", value)] }
}

fn run(events: Vec<SessionEvent>) -> (SessionState, Vec<SessionAction>) {
    let (mut state, first) = begin();
    let mut actions = vec![first];
    for event in events {
        let (next, action) = step(state, event);
        state = next;
        actions.push(action);
    }
    (state, actions)
}

fn home(timeout_ms: u64) -> SessionAction {
    SessionAction::AwaitUrl { page: Page::Home, timeout_ms }
}

#[test]
fn login_run_gives_the_token() {
    let (state, actions) = run(vec![
        SessionEvent::Launched,
        SessionEvent::Opened,
        SessionEvent::UrlAwaited { reached: true },
        SessionEvent::LoginAttempted,
        SessionEvent::UrlAwaited { reached: true },
        jar(VALID),
        SessionEvent::Closed,
    ]);
    assert!(matches!(state, SessionState::Done { ref token } if token == VALID));
    assert_eq!(
        actions,
        vec![
            SessionAction::Launch,
            SessionAction::Open,
            SessionAction::AwaitUrl { page: Page::LoginForm, timeout_ms: 5000 },
            SessionAction::Login,
            home(5000),
            SessionAction::ReadCookies,
            SessionAction::Close,
            SessionAction::Stop,
        ]
    );
}

#[test]
fn cached_session_skips_the_login() {
    let (state, actions) = run(vec![
        SessionEvent::Launched,
        SessionEvent::Opened,
        SessionEvent::UrlAwaited { reached: false },
        SessionEvent::UrlAwaited { reached: false },
        jar(VALID),
        SessionEvent::Closed,
    ]);
    assert!(matches!(state, SessionState::Done { ref token } if token == VALID));
    assert!(!actions.contains(&SessionAction::Login));
    assert_eq!(actions[3], home(5000));
    assert_eq!(actions[4], SessionAction::ReadCookies);
}

#[test]
fn early_cookie_is_read_again_until_it_holds_the_marker() {
    let (state, actions) = run(vec![
        SessionEvent::Launched,
        SessionEvent::Opened,
        SessionEvent::UrlAwaited { reached: false },
        SessionEvent::UrlAwaited { reached: true },
        jar(EARLY),
        SessionEvent::UrlAwaited { reached: true },
        jar(EARLY),
        SessionEvent::UrlAwaited { reached: false },
        jar(VALID),
        SessionEvent::Closed,
    ]);
    assert!(matches!(state, SessionState::Done { ref token } if token == VALID));
    assert_eq!(
        actions[5..],
        [
            home(1000),
            SessionAction::ReadCookies,
            home(1000),
            SessionAction::ReadCookies,
            SessionAction::Close,
            SessionAction::Stop,
        ]
    );
}

#[test]
fn missing_cookie_closes_the_browser_and_fails() {
    let (state, actions) = run(vec![
        SessionEvent::Launched,
        SessionEvent::Opened,
        SessionEvent::UrlAwaited { reached: false },
        SessionEvent::UrlAwaited { reached: true },
        SessionEvent::Cookies { cookies: vec![cookie("jsessionid", VALID)] },
    ]);
    assert!(matches!(
        state,
        SessionState::Closing { outcome: Err(SessionError::TokenNotFound) }
    ));
    assert_eq!(actions.last(), Some(&SessionAction::Close));
    let (state, action) = step(state, SessionEvent::Closed);
    assert!(matches!(state, SessionState::Failed { error: SessionError::TokenNotFound }));
    assert_eq!(action, SessionAction::Stop);
}

#[test]
fn a_cookie_that_never_holds_the_marker_ends_the_run() {
    let (mut state, _) = run(vec![
        SessionEvent::Launched,
        SessionEvent::Opened,
        SessionEvent::UrlAwaited { reached: false },
        SessionEvent::UrlAwaited { reached: true },
        jar(EARLY),
    ]);
    let mut reads = 0;
    let mut events = 0;
    loop {
        let (next, action) = step(state, SessionEvent::UrlAwaited { reached: true });
        assert_eq!(action, SessionAction::ReadCookies);
        let (next, action) = step(next, jar(EARLY));
        state = next;
        reads += 1;
        events += 2;
        if action == SessionAction::Close {
            break;
        }
        assert_eq!(action, home(1000));
        assert!(events < 10_000);
    }
    assert_eq!(reads, TOKEN_READS);
    assert!(matches!(
        state,
        SessionState::Closing { outcome: Err(SessionError::TokenNeverValid) }
    ));
    let (state, _) = step(state, SessionEvent::Closed);
    assert!(matches!(state, SessionState::Failed { error: SessionError::TokenNeverValid }));
}

#[test]
fn failures_give_the_run_up() {
    let (state, action) = step(SessionState::Init, SessionEvent::Failure);
    assert!(matches!(state, SessionState::Failed { error: SessionError::LaunchFailed }));
    assert_eq!(action, SessionAction::Stop);

    let (state, action) = step(SessionState::AwaitingHome, SessionEvent::Failure);
    assert!(matches!(
        state,
        SessionState::Closing { outcome: Err(SessionError::BrowserFailed) }
    ));
    assert_eq!(action, SessionAction::Close);

    let closing = SessionState::Closing { outcome: Ok(VALID.to_string()) };
    let (state, action) = step(closing, SessionEvent::Failure);
    assert!(matches!(state, SessionState::Failed { error: SessionError::BrowserFailed }));
    assert_eq!(action, SessionAction::Stop);

    let closing = SessionState::Closing { outcome: Err(SessionError::TokenNotFound) };
    let (state, _) = step(closing, SessionEvent::Failure);
    assert!(matches!(state, SessionState::Failed { error: SessionError::TokenNotFound }));
}

#[test]
fn events_out_of_turn_give_the_run_up() {
    let (state, action) = step(SessionState::Navigating, SessionEvent::Launched);
    assert!(matches!(state, SessionState::Closing { outcome: Err(SessionError::OutOfTurn) }));
    assert_eq!(action, SessionAction::Close);
    let (state, action) = step(SessionState::Init, jar(VALID));
    assert!(matches!(state, SessionState::Failed { error: SessionError::LaunchFailed }));
    assert_eq!(action, SessionAction::Stop);
    let (state, _) = step(SessionState::LoggingIn, SessionEvent::UrlAwaited { reached: true });
    assert!(matches!(state, SessionState::Closing { outcome: Err(SessionError::OutOfTurn) }));
}

#[test]
fn a_run_that_is_over_stays_over() {
    let done = SessionState::Done { token: VALID.to_string() };
    let (state, action) = step(done, SessionEvent::Launched);
    assert!(matches!(state, SessionState::Done { ref token } if token == VALID));
    assert_eq!(action, SessionAction::Stop);
    let failed = SessionState::Failed { error: SessionError::TokenNotFound };
    let (state, action) = step(failed, SessionEvent::Closed);
    assert!(matches!(state, SessionState::Failed { error: SessionError::TokenNotFound }));
    assert_eq!(action, SessionAction::Stop);
}

#[test]
fn session_cookie_is_found_by_name() {
    assert_eq!(get_jsession_id(&vec![]), None);
    assert_eq!(get_jsession_id(&vec![cookie("a", "1"), cookie("JSESSIONID ", "2")]), None);
    assert_eq!(
        get_jsession_id(&vec![
            cookie("a", "1"),
            cookie("JSESSIONID", "first"),
            cookie("JSESSIONID", "second"),
        ]),
        Some("first".to_string())
    );
    assert_eq!(get_jsession_id(&vec![cookie("JSESSIONID", "")]), Some(String::new()));
}

#[test]
fn token_is_judged_by_the_marker() {
    assert!(is_authenticated("chusa_servlet_HAKSA01"));
    assert!(is_authenticated("0001abc:chusa_servlet_HAKSA01:xyz"));
    assert!(is_authenticated("chusa_servlet_HAKSAchusa_servlet_HAKSA01"));
    assert!(!is_authenticated(""));
    assert!(!is_authenticated("chusa_servlet_HAKSA0"));
    assert!(!is_authenticated("chusa_servlet_haksa01"));
    assert!(!is_authenticated("chusa_servlet_HAKSA 01"));
    for token in ["", "x", "chusa", "chusa_servlet_HAKSA01", "..chusa_servlet_HAKSA011", "한글"] {
        assert_eq!(is_authenticated(token), token.contains("chusa_servlet_HAKSA01"));
    }
}

#[test]
fn browser_is_started_with_a_fixed_window() {
    let shown = launch_settings(false);
    assert_eq!((shown.width, shown.height), (1440, 900));
    assert!(shown.with_head);
    assert!(!shown.sandbox);
    assert_eq!(
        shown.arguments,
        vec![format!("--user-agent={}", ajou_parser::MY_USER_AGENT)]
    );
    let hidden = launch_settings(true);
    assert_eq!(
        hidden.arguments,
        vec![format!("--user-agent={}", ajou_parser::MY_USER_AGENT), "--headless".to_string()]
    );
}

#[test]
fn poll_ends_on_the_address_or_the_time() {
    let target = "https://mhaksa.ajou.ac.kr:30443/index.html";
    assert_eq!(wait_for_url(target, target, 0, 5000), Poll::Reached);
    assert_eq!(wait_for_url(target, target, u128::MAX, 0), Poll::Reached);
    assert_eq!(wait_for_url("about:blank", target, 0, 5000), Poll::Wait { millis: 100 });
    assert_eq!(
        wait_for_url("about:blank", target, 5_000_000_000, 5000),
        Poll::Wait { millis: 100 }
    );
    assert_eq!(wait_for_url("about:blank", target, 5_000_000_001, 5000), Poll::TimedOut);
    assert_eq!(wait_for_url("", target, 1, 0), Poll::TimedOut);
    assert_eq!(
        wait_for_url("https://mhaksa.ajou.ac.kr:30443/index.html#", target, 0, 1000),
        Poll::Wait { millis: 100 }
    );
    assert_eq!(
        wait_for_url("a", "b", u64::MAX as u128 * 1_000_000, u64::MAX),
        Poll::Wait { millis: 100 }
    );
}

#[test]
fn pages_have_their_addresses() {
    assert_eq!(page_url(Page::Home), "https://mhaksa.ajou.ac.kr:30443/index.html");
    assert_eq!(page_url(Page::LoginForm), "https://sso.ajou.ac.kr/jsp/sso/ip/login_form.jsp");
}

#[test]
fn login_is_three_steps_or_none() {
    assert_eq!(login_if_needed(false), vec![]);
    let steps = login_if_needed(true);
    assert_eq!(steps, vec![LoginStep::TypeUserId, LoginStep::TypePassword, LoginStep::Submit]);
    let selectors: Vec<&str> = steps.iter().map(|s| s.selector()).collect();
    assert_eq!(selectors, vec!["input#userId", "input#password", "a#loginSubmit"]);
}

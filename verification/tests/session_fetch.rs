use libre_link_up_api_client::auth::Session;
use libre_link_up_api_client::graph::FetchAttempt;
use libre_link_up_api_client::login::{AuthTicket, LoginArgs};
use libre_link_up_api_client::region::Region;
use libre_link_up_api_client::session::{SessionManager, TokenDecision};

fn args() -> LoginArgs {
    LoginArgs { username: "user@example.com".to_owned(), password: "pw".to_owned() }
}

fn session(token: &str, expires: i64) -> Session {
    Session {
        region: Region::US,
        ticket: AuthTicket { token: token.to_owned(), expires, duration: 3600 },
        user_id: "u1".to_owned(),
    }
}

#[test]
fn fresh_ticket_is_returned_without_transport() {
    let mut mgr = SessionManager::new(args(), Region::Global);
    mgr.complete_auth(Some(session("tok", 1000)));
    let mut transport_calls = 0;
    match mgr.request_token(999) {
        TokenDecision::UseHeld(t) => assert_eq!(t.token, "tok"),
        TokenDecision::BeginAuth => transport_calls += 1,
        TokenDecision::AwaitInFlight => panic!("nothing is in flight"),
    }
    assert_eq!(transport_calls, 0);
}

#[test]
fn expired_ticket_triggers_exactly_one_attempt() {
    let mut mgr = SessionManager::new(args(), Region::Global);
    mgr.complete_auth(Some(session("tok", 1000)));
    let now = 1000; // now >= expires marks the ticket expired
    let mut transport_calls = 0;
    // two callers race for a token while the held ticket is expired
    let first = mgr.request_token(now);
    if matches!(first, TokenDecision::BeginAuth) {
        transport_calls += 1;
    }
    let second = mgr.request_token(now);
    if matches!(second, TokenDecision::BeginAuth) {
        transport_calls += 1;
    }
    assert!(matches!(first, TokenDecision::BeginAuth));
    assert!(matches!(second, TokenDecision::AwaitInFlight));
    assert_eq!(transport_calls, 1); // single flight
    // the one attempt completes; both callers now see the fresh ticket
    mgr.complete_auth(Some(session("tok2", 5000)));
    match mgr.request_token(now) {
        TokenDecision::UseHeld(t) => assert_eq!(t.token, "tok2"),
        other => panic!("expected the fresh ticket, got {other:?}"),
    }
}

#[test]
fn failed_attempt_leaves_prior_state() {
    let mut mgr = SessionManager::new(args(), Region::Global);
    mgr.complete_auth(Some(session("tok", 1000)));
    assert!(matches!(mgr.request_token(2000), TokenDecision::BeginAuth));
    // the attempt is canceled or fails: no partial session is installed
    mgr.complete_auth(None);
    match &mgr.session {
        Some(s) => assert_eq!(s.ticket.token, "tok"),
        None => panic!("prior session must be kept"),
    }
    // and the next request may begin a new attempt
    assert!(matches!(mgr.request_token(2000), TokenDecision::BeginAuth));
}

#[test]
fn invalidate_forces_reauthentication() {
    let mut mgr = SessionManager::new(args(), Region::Global);
    mgr.complete_auth(Some(session("tok", i64::MAX)));
    mgr.invalidate();
    assert!(mgr.session.is_none());
    assert!(matches!(mgr.request_token(0), TokenDecision::BeginAuth));
}

#[test]
fn fetch_retries_once_after_rejection() {
    let mut attempt = FetchAttempt::begin();
    let mut fetches = 1; // the initial request
    // the service rejects the token despite the local expiry check
    let retry = attempt.on_auth_rejected();
    assert!(retry); // invalidate the session and retry exactly once
    fetches += 1;
    // the retried fetch succeeds: two transport calls in all
    assert_eq!(fetches, 2);
}

#[test]
fn second_rejection_is_fatal_no_third_attempt() {
    let mut attempt = FetchAttempt::begin();
    assert!(attempt.on_auth_rejected()); // first rejection: retry
    let retry_again = attempt.on_auth_rejected(); // second rejection
    assert!(!retry_again); // fatal: AuthenticationRejected, no third attempt
    assert!(!attempt.on_auth_rejected()); // and never again in this call
}

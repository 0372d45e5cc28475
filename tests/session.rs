use men_in_tights::error::ErrorKind;
use men_in_tights::session::challenge::ChallengeType;
use men_in_tights::session::machine::{Session, SessionState};
use men_in_tights::session::oauth::{login_request, OAuthResponse};

fn respond(json: &str) -> OAuthResponse {
    OAuthResponse::from_json_text(json).unwrap()
}

fn session() -> Session {
    Session::start("user", "pass", ChallengeType::SMS, "device")
}

#[test]
fn detail_only_response_fails() {
    let mut s = session();
    let state = s.on_login_response(respond(r#"{"detail":"d","expires_in":100}"#)).unwrap();
    assert_eq!(state, SessionState::Failed);
    let failure = s.failure().as_ref().unwrap();
    assert_eq!(failure.kind(), ErrorKind::AuthenticationFailed);
    assert_eq!(failure.message(), "😱 d");
}

#[test]
fn token_response_authenticates() {
    let mut s = session();
    let json = r#"{"detail":"ok","access_token":"acc","refresh_token":"ref","expires_in":100}"#;
    assert_eq!(s.on_login_response(respond(json)).unwrap(), SessionState::Authenticated);
    assert_eq!(s.access_token().clone(), Some("acc".to_string()));
    assert_eq!(s.refresh_token().clone(), Some("ref".to_string()));
    assert_eq!(s.expires_in(), 100);
}

#[test]
fn challenge_response_awaits_answer_with_header() {
    let mut s = session();
    let json = r#"{"detail":"c","expires_in":100,"challenge":{"id":"abc-1","user":"u","type":"sms",
        "status":"issued","expires_at":"2023-10-18T10:59:50.159306Z"}}"#;
    assert_eq!(s.on_login_response(respond(json)).unwrap(), SessionState::AwaitingChallengeResponse);
    let (name, value) = s.challenge_header().unwrap();
    assert_eq!(name, "X-ROBINHOOD-CHALLENGE-RESPONSE-ID");
    assert_eq!(value, "abc-1");
    assert_eq!(*s.login(), login_request("user", "pass", ChallengeType::SMS, "device"));
    let done = r#"{"detail":"ok","access_token":"a","expires_in":9}"#;
    assert_eq!(s.on_login_response(respond(done)).unwrap(), SessionState::Authenticated);
}

#[test]
fn mfa_then_tokens_authenticates() {
    let mut s = session();
    let json = r#"{"detail":"mfa","expires_in":100,"mfa_required":true}"#;
    assert_eq!(s.on_login_response(respond(json)).unwrap(), SessionState::AwaitingMfa);
    s.provide_mfa("123456".to_string()).unwrap();
    assert_eq!(s.state(), SessionState::Initiated);
    assert_eq!(s.login().mfa_code, Some("123456".to_string()));
    let done = r#"{"detail":"ok","access_token":"a","refresh_token":"r","expires_in":100}"#;
    assert_eq!(s.on_login_response(respond(done)).unwrap(), SessionState::Authenticated);
}

#[test]
fn token_wins_over_challenge_and_mfa() {
    let mut s = session();
    let json = r#"{"detail":"d","expires_in":1,"mfa_required":true,"access_token":"a"}"#;
    assert_eq!(s.on_login_response(respond(json)).unwrap(), SessionState::Authenticated);
}

#[test]
fn login_response_while_awaiting_mfa_is_rejected() {
    let mut s = session();
    s.on_login_response(respond(r#"{"detail":"m","expires_in":1,"mfa_required":true}"#)).unwrap();
    let err = s.on_login_response(respond(r#"{"detail":"d","expires_in":1}"#)).unwrap_err();
    assert_eq!(err.kind(), ErrorKind::InvalidTransition);
    assert_eq!(s.state(), SessionState::AwaitingMfa);
}

#[test]
fn mfa_outside_its_state_is_rejected() {
    let mut s = session();
    assert_eq!(s.provide_mfa("1".to_string()).unwrap_err().kind(), ErrorKind::InvalidTransition);
    assert_eq!(s.login().mfa_code, None);
}

#[test]
fn refresh_flow() {
    let mut s = session();
    s.on_login_response(respond(r#"{"detail":"ok","access_token":"a","refresh_token":"r1","expires_in":1}"#))
        .unwrap();
    let req = s.begin_refresh().unwrap();
    assert_eq!(req.refresh_token, "r1");
    assert_eq!(req.grant_type, "refresh_token");
    assert_eq!(s.state(), SessionState::Refreshing);
    let json = r#"{"detail":"ok","access_token":"a2","refresh_token":"r2","expires_in":7}"#;
    assert_eq!(s.on_refresh_response(respond(json)).unwrap(), SessionState::Authenticated);
    assert_eq!(s.access_token().clone(), Some("a2".to_string()));
    assert_eq!(s.refresh_token().clone(), Some("r2".to_string()));
    assert_eq!(s.expires_in(), 7);
}

#[test]
fn refresh_without_tokens_fails() {
    let mut s = session();
    s.on_login_response(respond(r#"{"detail":"ok","access_token":"a","refresh_token":"r","expires_in":1}"#))
        .unwrap();
    s.begin_refresh().unwrap();
    let json = r#"{"detail":"expired","expires_in":0,"mfa_required":true}"#;
    assert_eq!(s.on_refresh_response(respond(json)).unwrap(), SessionState::Failed);
    let failure = s.failure().as_ref().unwrap();
    assert_eq!(failure.kind(), ErrorKind::AuthenticationFailed);
    assert_eq!(failure.message(), "😱 expired");
}

#[test]
fn refresh_before_login_is_rejected() {
    let mut s = session();
    assert_eq!(s.begin_refresh().unwrap_err().kind(), ErrorKind::InvalidTransition);
    assert_eq!(
        s.on_refresh_response(respond(r#"{"detail":"d","expires_in":1}"#)).unwrap_err().kind(),
        ErrorKind::InvalidTransition
    );
}

#[test]
fn transport_failure_fails_session() {
    let mut s = session();
    let err = s.on_transport_failure("timed out");
    assert_eq!(err.kind(), ErrorKind::Transport);
    assert_eq!(err.message(), "😱 https error: timed out");
    assert_eq!(s.state(), SessionState::Failed);
    assert_eq!(s.failure().as_ref().unwrap().kind(), ErrorKind::Transport);
}

#[test]
fn unreadable_login_text_fails_session() {
    let mut s = session();
    let err = s.on_login_text("{\"detail\":\"d\"}").unwrap_err();
    assert_eq!(err.kind(), ErrorKind::Deserialization);
    assert!(err.message().starts_with("😱 "));
    assert_eq!(s.state(), SessionState::Failed);
    assert_eq!(s.failure().as_ref().unwrap().kind(), ErrorKind::Deserialization);
}

#[test]
fn login_text_drives_session() {
    let mut s = session();
    let state = s.on_login_text(r#"{"detail":"m","expires_in":1,"mfa_required":true}"#).unwrap();
    assert_eq!(state, SessionState::AwaitingMfa);
    assert_eq!(s.on_login_text("{}").unwrap_err().kind(), ErrorKind::InvalidTransition);
    assert_eq!(s.state(), SessionState::AwaitingMfa);
}

#[test]
fn unreadable_refresh_text_fails_session() {
    let mut s = session();
    s.on_login_text(r#"{"detail":"ok","access_token":"a","refresh_token":"r","expires_in":1}"#)
        .unwrap();
    s.begin_refresh().unwrap();
    let err = s.on_refresh_text("not json").unwrap_err();
    assert_eq!(err.kind(), ErrorKind::Deserialization);
    assert_eq!(s.state(), SessionState::Failed);
}

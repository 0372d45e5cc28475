use men_in_tights::error::ErrorKind;
use men_in_tights::json::Json;
use men_in_tights::session::challenge::{Challenge, ChallengeStatus, ChallengeType};
use men_in_tights::session::oauth::{
    login_request, mfa_request, refresh_request, OAuthLoginRequest, OAuthRefreshRequest,
    OAuthResponse, CLIENT_ID, EXPIRATION_TIME,
};
use men_in_tights::time::Timestamp;

#[test]
fn login_request_serialize() {
    let request = login_request("username", "password", ChallengeType::SMS, "device");
    let json = request.to_json_text().expect("json serialize failed");
    let expected = r#"{
  "challenge_type": "sms",
  "client_id": "c82SH0WZOsabOXGP2sxqcj34FxkvfnWRZBKlBjFS",
  "device_token": "device",
  "expires_in": 734000,
  "grant_type": "password",
  "password": "password",
  "scope": "internal",
  "username": "username"
}"#;
    assert_eq!(json, expected)
}

#[test]
fn mfa_request_serialize() {
    let login_request = login_request("username", "password", ChallengeType::SMS, "device");
    let mfa_request = mfa_request("code".to_string(), login_request);
    let json = mfa_request.to_json_text().expect("json serialize failed");
    let expected = r#"{
  "challenge_type": "sms",
  "client_id": "c82SH0WZOsabOXGP2sxqcj34FxkvfnWRZBKlBjFS",
  "device_token": "device",
  "expires_in": 734000,
  "grant_type": "password",
  "mfa_code": "code",
  "password": "password",
  "scope": "internal",
  "username": "username"
}"#;
    assert_eq!(json, expected)
}

#[test]
fn refresh_request_serialize() {
    let request = refresh_request("refresh");
    let json = request.to_json_text().expect("json serialize failed");
    let expected = r#"{
  "client_id": "c82SH0WZOsabOXGP2sxqcj34FxkvfnWRZBKlBjFS",
  "expires_in": 734000,
  "grant_type": "refresh_token",
  "refresh_token": "refresh",
  "scope": "internal"
}"#;
    assert_eq!(json, expected)
}

#[test]
fn oauth_response_deserialize() {
    let json = r#"
{
  "detail": "detail",
  "challenge": {
    "id": "challenge_id",
    "user": "user",
    "type": "sms",
    "status": "issued",
    "expires_at": "2023-10-18T10:59:50.159306Z"
  },
  "mfa_required": true,
  "access_token": "access",
  "refresh_token": "refresh",
  "expires_in": 100,
  "some_other_field": "extra"
}
"#;

    let oauth = OAuthResponse::from_json_text(json).expect("failed to deserialize");

    let expected_challenge = Challenge {
        id: "challenge_id".to_string(),
        user: "user".to_string(),
        challenge_type: ChallengeType::SMS,
        status: ChallengeStatus::ISSUED,
        remaining_attempts: 0,
        remaining_retries: 0,
        expires_at: Timestamp::parse_rfc3339("2023-10-18T10:59:50.159306Z").unwrap(),
        extra_fields: Vec::new(),
    };
    let expected = OAuthResponse {
        detail: "detail".to_string(),
        challenge: Some(expected_challenge),
        mfa_required: true,
        access_token: Some("access".to_string()),
        refresh_token: Some("refresh".to_string()),
        expires_in: 100,
        extra_fields: vec![("some_other_field".to_string(), Json::Str("extra".to_string()))],
    };
    assert_eq!(oauth, expected)
}

#[test]
fn oauth_response_deserialize_minimal() {
    let json = r#"
{
  "detail": "detail",
  "expires_in": 100
}
"#;

    let oauth = OAuthResponse::from_json_text(json).expect("failed to deserialize");

    let expected = OAuthResponse {
        detail: "detail".to_string(),
        challenge: None,
        mfa_required: false,
        access_token: None,
        refresh_token: None,
        expires_in: 100,
        extra_fields: Vec::new(),
    };
    assert_eq!(oauth, expected)
}

#[test]
fn login_request_fixed_fields() {
    let r = login_request("u", "p", ChallengeType::EMAIL, "d");
    assert_eq!(r.client_id, CLIENT_ID);
    assert_eq!(r.expires_in, EXPIRATION_TIME);
    assert_eq!(r.grant_type, "password");
    assert_eq!(r.scope, "internal");
    assert_eq!(r.mfa_code, None);
    assert_eq!(r.challenge_type, ChallengeType::EMAIL);
}

#[test]
fn mfa_request_changes_only_the_code() {
    let base = login_request("u", "p", ChallengeType::SMS, "d");
    let with = mfa_request("777".to_string(), login_request("u", "p", ChallengeType::SMS, "d"));
    assert_eq!(with.mfa_code, Some("777".to_string()));
    assert_eq!(OAuthLoginRequest { mfa_code: None, ..with }, base);
}

#[test]
fn login_request_text_round_trip() {
    let text = mfa_request("c".to_string(), login_request("u", "p", ChallengeType::SMS, "d"))
        .to_json_text()
        .unwrap();
    let back = OAuthLoginRequest::from_json_text(&text).unwrap();
    assert_eq!(back, mfa_request("c".to_string(), login_request("u", "p", ChallengeType::SMS, "d")));
}

#[test]
fn refresh_request_text_round_trip() {
    let text = refresh_request("r").to_json_text().unwrap();
    assert_eq!(OAuthRefreshRequest::from_json_text(&text).unwrap(), refresh_request("r"));
}

#[test]
fn refresh_request_missing_token_is_an_error() {
    let json = r#"{"client_id":"c","expires_in":1,"grant_type":"refresh_token","scope":"internal"}"#;
    assert_eq!(
        OAuthRefreshRequest::from_json_text(json).unwrap_err().kind(),
        ErrorKind::Deserialization
    );
}

#[test]
fn oauth_response_text_round_trip() {
    let json = r#"{"detail":"d","expires_in":5,"mfa_required":true,"x":{"y":1},
        "challenge":{"id":"i","user":"u","type":"sms","status":"issued","remaining_retries":4,
        "expires_at":"2023-10-18T10:59:50.159306Z","k":"v"}}"#;
    let first = OAuthResponse::from_json_text(json).unwrap();
    let again = OAuthResponse::from_json(first.to_json().unwrap()).unwrap();
    assert_eq!(again, OAuthResponse::from_json_text(json).unwrap());
    assert_eq!(again.challenge.as_ref().unwrap().remaining_retries, 4);
    assert_eq!(again.extra_fields.len(), 1);
}

#[test]
fn oauth_response_missing_expires_in_is_an_error() {
    let err = OAuthResponse::from_json_text(r#"{"detail":"d"}"#).unwrap_err();
    assert_eq!(err.kind(), ErrorKind::Deserialization);
}

#[test]
fn oauth_response_malformed_challenge_is_an_error() {
    let json = r#"{"detail":"d","expires_in":1,"challenge":{"id":"i"}}"#;
    assert_eq!(OAuthResponse::from_json_text(json).unwrap_err().kind(), ErrorKind::Deserialization);
}

#[test]
fn oauth_response_null_tokens_read_as_absent() {
    let json = r#"{"detail":"d","expires_in":1,"access_token":null,"challenge":null}"#;
    let r = OAuthResponse::from_json_text(json).unwrap();
    assert_eq!(r.access_token, None);
    assert!(r.challenge.is_none());
}

#[test]
fn request_bodies_are_compact() {
    let body = refresh_request("r").to_json_body();
    assert_eq!(
        body,
        r#"{"client_id":"c82SH0WZOsabOXGP2sxqcj34FxkvfnWRZBKlBjFS","expires_in":734000,"grant_type":"refresh_token","refresh_token":"r","scope":"internal"}"#
    );
    let login = login_request("u", "p", ChallengeType::SMS, "d").to_json_body();
    assert!(login.starts_with(r#"{"challenge_type":"sms","client_id":"#));
    assert!(!login.contains("mfa_code"));
}

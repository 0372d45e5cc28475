use men_in_tights::error::ErrorKind;
use men_in_tights::json::Json;
use men_in_tights::session::challenge::{
    self, Challenge, ChallengeResponse, ChallengeStatus, ChallengeType,
};
use men_in_tights::time::Timestamp;
use reqwest::header::{HeaderMap, HeaderName, HeaderValue};

fn stamp() -> Timestamp {
    Timestamp::parse_rfc3339("2023-10-18T10:59:50.159306Z").unwrap()
}

#[test]
fn challenge_deserialize() {
    let json = r#"
{
  "id": "id",
  "user": "user",
  "type": "sms",
  "status": "issued",
  "remaining_attempts": 3,
  "remaining_retries": 2,
  "expires_at": "2023-10-18T10:59:50.159306Z",
  "some_other_field": "extra"
}
"#;
    let challenge = Challenge::from_json_text(json).expect("failed to deserialize");
    let expected = Challenge {
        id: "id".to_string(),
        user: "user".to_string(),
        challenge_type: ChallengeType::SMS,
        status: ChallengeStatus::ISSUED,
        remaining_attempts: 3,
        remaining_retries: 2,
        expires_at: stamp(),
        extra_fields: vec![("some_other_field".to_string(), Json::Str("extra".to_string()))],
    };
    assert_eq!(challenge, expected);
}

#[test]
fn challenge_deserialize_minimal() {
    let json = r#"
{
  "id": "id",
  "user": "user",
  "type": "email",
  "status": "validated",
  "expires_at": "2023-10-18T10:59:50.159306Z"
}
"#;
    let challenge = Challenge::from_json_text(json).expect("failed to deserialize");
    let expected = Challenge {
        id: "id".to_string(),
        user: "user".to_string(),
        challenge_type: ChallengeType::EMAIL,
        status: ChallengeStatus::VALIDATED,
        remaining_attempts: 0,
        remaining_retries: 0,
        expires_at: stamp(),
        extra_fields: Vec::new(),
    };
    assert_eq!(challenge, expected);
}

#[test]
fn challenge_response_serialize() {
    let response = ChallengeResponse::new("1234".to_string());
    let json = response.to_json_text().expect("json serialize failed");
    let expected = "{\n  \"response\": \"1234\"\n}";
    assert_eq!(json, expected)
}

#[test]
fn challenge_response_headers() {
    let challenge = Challenge {
        id: "42".to_string(),
        user: "".to_string(),
        challenge_type: ChallengeType::SMS,
        status: ChallengeStatus::ISSUED,
        remaining_attempts: 0,
        remaining_retries: 0,
        expires_at: stamp(),
        extra_fields: Vec::new(),
    };
    let (name, value) = challenge::challenge_response_headers(&challenge);
    let mut headers = HeaderMap::new();
    headers.insert(name.parse::<HeaderName>().unwrap(), value.parse::<HeaderValue>().unwrap());
    let mut expected = HeaderMap::new();
    expected.insert(
        "X-ROBINHOOD-CHALLENGE-RESPONSE-ID".parse::<HeaderName>().unwrap(),
        "42".parse::<HeaderValue>().unwrap(),
    );

    assert_eq!(headers, expected)
}

#[test]
fn challenge_text_round_trip_keeps_extra_fields() {
    let json = r#"{"id":"c","user":"u","type":"email","status":"failed","remaining_attempts":1,
        "expires_at":"2023-10-18T10:59:50.159306Z","zeta":[1,2],"alpha":7}"#;
    let challenge = Challenge::from_json_text(json).unwrap();
    assert_eq!(challenge.extra_fields.len(), 2);
    assert_eq!(challenge.extra_fields[0], ("alpha".to_string(), Json::Int(7)));
    let written = challenge.to_json().unwrap();
    let text = match written {
        Json::Object(ref es) => es.len(),
        _ => 0,
    };
    assert_eq!(text, 9);
    let again = Challenge::from_json(written).unwrap();
    assert_eq!(again, Challenge::from_json_text(json).unwrap());
}

#[test]
fn challenge_missing_id_is_an_error() {
    let json = r#"{"user":"u","type":"sms","status":"issued","expires_at":"2023-10-18T10:59:50Z"}"#;
    let err = Challenge::from_json_text(json).unwrap_err();
    assert_eq!(err.kind(), ErrorKind::Deserialization);
}

#[test]
fn challenge_unknown_type_is_an_error() {
    let json = r#"{"id":"i","user":"u","type":"SMS","status":"issued","expires_at":"2023-10-18T10:59:50Z"}"#;
    assert_eq!(Challenge::from_json_text(json).unwrap_err().kind(), ErrorKind::Deserialization);
}

#[test]
fn challenge_bad_timestamp_is_an_error() {
    let json = r#"{"id":"i","user":"u","type":"sms","status":"issued","expires_at":"2023-10-18"}"#;
    assert_eq!(Challenge::from_json_text(json).unwrap_err().kind(), ErrorKind::Deserialization);
}

#[test]
fn challenge_count_out_of_range_is_an_error() {
    let json = r#"{"id":"i","user":"u","type":"sms","status":"issued","remaining_attempts":4294967296,
        "expires_at":"2023-10-18T10:59:50Z"}"#;
    assert_eq!(Challenge::from_json_text(json).unwrap_err().kind(), ErrorKind::Deserialization);
}

#[test]
fn challenge_from_non_json_is_an_error() {
    assert_eq!(Challenge::from_json_text("{not json").unwrap_err().kind(), ErrorKind::Deserialization);
}

#[test]
fn challenge_tokens() {
    assert_eq!(ChallengeType::SMS.token(), "sms");
    assert_eq!(ChallengeType::EMAIL.token(), "email");
    assert_eq!(ChallengeStatus::VALIDATED.token(), "validated");
    assert_eq!(ChallengeType::from_token(&"email".to_string()), Some(ChallengeType::EMAIL));
    assert_eq!(ChallengeStatus::from_token(&"failed".to_string()), Some(ChallengeStatus::FAILED));
    assert_eq!(ChallengeStatus::from_token(&"Failed".to_string()), None);
}

#[test]
fn challenge_response_from_json() {
    let j = Json::Object(vec![("response".to_string(), Json::Str("99".to_string()))]);
    assert_eq!(ChallengeResponse::from_json(j).unwrap(), ChallengeResponse::new("99".to_string()));
    assert_eq!(
        ChallengeResponse::from_json(Json::Null).unwrap_err().kind(),
        ErrorKind::Deserialization
    );
}

#[test]
fn challenge_written_as_text_reads_back() {
    let json = r#"{"id":"c","user":"u","type":"sms","status":"issued","remaining_attempts":2,
        "expires_at":"2023-10-18T10:59:50.159306Z","extra":{"n":null}}"#;
    let text = Challenge::from_json_text(json).unwrap().to_json_text().unwrap();
    assert!(text.contains("\"type\": \"sms\""));
    assert!(text.contains("\"expires_at\": \"2023-10-18T10:59:50.159306Z\""));
    assert_eq!(Challenge::from_json_text(&text).unwrap(), Challenge::from_json_text(json).unwrap());
}

#[test]
fn duplicate_extra_members_are_an_error() {
    let member = |k: &str, v: &str| (k.to_string(), Json::Str(v.to_string()));
    let j = Json::Object(vec![
        member("id", "i"),
        member("user", "u"),
        member("type", "sms"),
        member("status", "issued"),
        member("expires_at", "2023-10-18T10:59:50Z"),
        member("x", "1"),
        member("x", "2"),
    ]);
    let err = Challenge::from_json(j).unwrap_err();
    assert_eq!(err.kind(), ErrorKind::Deserialization);
    assert!(err.message().starts_with("😱 "));
}

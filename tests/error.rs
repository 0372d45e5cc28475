use men_in_tights::error::{ErrorKind, RobinhoodError};
use men_in_tights::time::Timestamp;

#[test]
fn error_new_is_marked() {
    let e = RobinhoodError::new("boom");
    assert_eq!(e.message(), "😱 boom");
    assert_eq!(e.kind(), ErrorKind::Other);
}

#[test]
fn error_transport_names_cause() {
    let e = RobinhoodError::transport("refused");
    assert_eq!(e.message(), "😱 https error: refused");
}

#[test]
fn timestamp_parse_reads_instant_and_offset() {
    let t = Timestamp::parse_rfc3339("2023-10-18T10:59:50.159306Z").unwrap();
    assert_eq!(t, Timestamp { seconds: 1697626790, nanos: 159306000, offset_seconds: 0 });
    let u = Timestamp::parse_rfc3339("2023-10-18T12:59:50+02:00").unwrap();
    assert_eq!(u.seconds, 1697626790);
    assert_eq!(u.offset_seconds, 7200);
}

#[test]
fn timestamp_writes_rfc3339() {
    let t = Timestamp { seconds: 1697626790, nanos: 159306000, offset_seconds: 0 };
    assert_eq!(t.to_rfc3339(), Some("2023-10-18T10:59:50.159306Z".to_string()));
    let u = Timestamp { seconds: 1697626790, nanos: 0, offset_seconds: 7200 };
    assert_eq!(u.to_rfc3339(), Some("2023-10-18T12:59:50+02:00".to_string()));
}

#[test]
fn timestamp_rejects_bad_text() {
    assert_eq!(Timestamp::parse_rfc3339("yesterday").unwrap_err().kind(), ErrorKind::Deserialization);
}

#[test]
fn timestamp_past_chrono_range_is_not_written() {
    let t = Timestamp { seconds: 8210266875000, nanos: 0, offset_seconds: 3600 };
    assert_eq!(t.to_rfc3339(), None);
}

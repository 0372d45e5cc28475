use men_in_tights::headers::standard;

#[test]
fn standard_verify_headers() {
    let headers = standard();
    assert_eq!(7, headers.len())
}

#[test]
fn standard_headers_values() {
    let headers = standard();
    assert_eq!(headers[0], ("Accept".to_string(), "*/*".to_string()));
    assert_eq!(headers[4], ("X-Robinhood-API-Version".to_string(), "1.0.0".to_string()));
    assert_eq!(
        headers[6],
        ("User-Agent".to_string(), "Robinhood/823 (iPhone; iOS 7.1.2; Scale/2.00)".to_string())
    );
}

use icap::status::StatusCode;

#[test]
fn from_u16_range_bounds() {
    assert!(StatusCode::from_u16(99).is_err());
    assert!(StatusCode::from_u16(100).is_ok());
    assert!(StatusCode::from_u16(999).is_ok());
    assert!(StatusCode::from_u16(1000).is_err());
    assert!(StatusCode::from_u16(0).is_err());
}

#[test]
fn from_u16_keeps_the_value() {
    assert_eq!(StatusCode::from_u16(204).unwrap().as_u16(), 204);
    assert_eq!(StatusCode::from_u16(999).unwrap().as_u16(), 999);
}

#[test]
fn from_bytes_200_is_valid_without_reason() {
    let c = StatusCode::from_bytes(b"200").unwrap();
    assert_eq!(c.as_u16(), 200);
    assert!(c.canonical_reason().is_none());
}

#[test]
fn from_bytes_rejects_leading_zero() {
    assert!(StatusCode::from_bytes(b"099").is_err());
    assert!(StatusCode::from_bytes(b"000").is_err());
}

#[test]
fn from_bytes_rejects_non_digits() {
    assert!(StatusCode::from_bytes(b"40x").is_err());
    assert!(StatusCode::from_bytes(b"4 0").is_err());
    assert!(StatusCode::from_bytes(b"x40").is_err());
    // bytes below '0' must not wrap around into false digits
    assert!(StatusCode::from_bytes(b"2\x000").is_err());
    assert!(StatusCode::from_bytes(b"2!0").is_err());
}

#[test]
fn from_bytes_rejects_wrong_length() {
    assert!(StatusCode::from_bytes(b"20").is_err());
    assert!(StatusCode::from_bytes(b"2000").is_err());
    assert!(StatusCode::from_bytes(b"").is_err());
}

#[test]
fn from_bytes_reads_base_ten() {
    assert_eq!(StatusCode::from_bytes(b"100").unwrap().as_u16(), 100);
    assert_eq!(StatusCode::from_bytes(b"418").unwrap().as_u16(), 418);
    assert_eq!(StatusCode::from_bytes(b"999").unwrap().as_u16(), 999);
}

#[test]
fn continue_has_canonical_reason() {
    let c = StatusCode::from_u16(100).unwrap();
    assert_eq!(c.canonical_reason(), Some("Continue"));
    assert_eq!(c.display_string(), "100 Continue");
}

#[test]
fn reason_table_entries() {
    let cases: [(u16, &str); 11] = [
        (100, "Continue"),
        (204, "No content"),
        (400, "Bad Request"),
        (404, "Not Found"),
        (405, "Method not allower"),
        (408, "Request Timeout"),
        (500, "Internal Server Error"),
        (501, "Not Implemented"),
        (502, "Bad Gateway"),
        (503, "Service Unavailable"),
        (505, "ICAP Version Not Supported"),
    ];
    for (num, phrase) in cases {
        let c = StatusCode::from_u16(num).unwrap();
        assert_eq!(c.canonical_reason(), Some(phrase));
    }
}

#[test]
fn display_of_unknown_code() {
    let c = StatusCode::from_u16(200).unwrap();
    assert!(c.canonical_reason().is_none());
    assert_eq!(c.display_string(), "200 <unknown status code>");
}

#[test]
fn display_of_known_codes() {
    assert_eq!(StatusCode::from_u16(404).unwrap().display_string(), "404 Not Found");
    assert_eq!(StatusCode::from_u16(505).unwrap().display_string(), "505 ICAP Version Not Supported");
}

#[test]
fn invalid_status_code_message() {
    let e = StatusCode::from_u16(42).unwrap_err();
    assert_eq!(e.message(), "invalid status code");
}

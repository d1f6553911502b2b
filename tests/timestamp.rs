use rusoto_credential::timestamp::parse_timestamp;

#[test]
fn timestamps() {
    assert_eq!(parse_timestamp("1970-01-01T00:00:00Z"), Some(0));
    assert_eq!(parse_timestamp("2030-01-01T00:00:00Z"), Some(1893456000));
    assert_eq!(parse_timestamp("2000-02-29T12:34:56Z"), Some(951827696));
    assert_eq!(parse_timestamp("2100-03-01T00:00:00Z"), Some(4107542400));
}

#[test]
fn bad_timestamps() {
    assert_eq!(parse_timestamp("2100-02-29T00:00:00Z"), None);
    assert_eq!(parse_timestamp("1969-12-31T23:59:59Z"), None);
    assert_eq!(parse_timestamp("2030-13-01T00:00:00Z"), None);
    assert_eq!(parse_timestamp("2030-01-01T24:00:00Z"), None);
    assert_eq!(parse_timestamp("2030-01-01 00:00:00Z"), None);
    assert_eq!(parse_timestamp(""), None);
}

#[test]
fn timestamps_with_fraction_and_offset() {
    assert_eq!(parse_timestamp("2030-01-01T00:00:00.5Z"), Some(1893456000));
    assert_eq!(parse_timestamp("2030-01-01T00:00:00.123456Z"), Some(1893456000));
    assert_eq!(parse_timestamp("2030-01-01T02:00:00+02:00"), Some(1893456000));
    assert_eq!(parse_timestamp("2029-12-31T19:00:00-05:00"), Some(1893456000));
    assert_eq!(parse_timestamp("2030-01-01T00:00:00.5+00:30"), Some(1893454200));
    assert_eq!(parse_timestamp("1970-01-01T00:00:00-00:01"), Some(60));
    assert_eq!(parse_timestamp("1970-01-01T00:00:00+00:01"), None);
    assert_eq!(parse_timestamp("2030-01-01T00:00:00.Z"), None);
    assert_eq!(parse_timestamp("2030-01-01T00:00:00+24:00"), None);
    assert_eq!(parse_timestamp("2030-01-01T00:00:00+0200"), None);
    assert_eq!(parse_timestamp("2030-01-01T00:00:00"), None);
}

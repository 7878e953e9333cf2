use duners::parse_utils::{
    date_parse, datetime_from_str, optional_datetime_from_str, require_instant, Timestamp,
};

#[test]
fn parses_the_service_format() {
    let instant = date_parse("2022-01-01T01:02:03.123Z").unwrap();
    assert_eq!(instant.unix_seconds(), 1_640_998_923);
    assert_eq!(instant.subsec_nanos(), 123_000_000);

    let micros = date_parse("2022-10-04T12:08:47.753527Z").unwrap();
    assert_eq!(micros.unix_seconds(), 1_664_885_327);
    assert_eq!(micros.subsec_nanos(), 753_527_000);

    let whole = date_parse("1970-01-01T00:00:00Z").unwrap();
    assert_eq!(whole, Timestamp::from_unix(0, 0).unwrap());
}

#[test]
fn rejects_what_is_no_timestamp() {
    assert_eq!(date_parse(""), None);
    assert_eq!(date_parse("yesterday"), None);
    assert_eq!(date_parse("2022-01-01"), None);
    assert_eq!(date_parse("2022-01-01 01:02:03.123Z"), None);
    assert_eq!(date_parse("2022-13-01T01:02:03.123Z"), None);
    assert_eq!(date_parse("2022-01-01T01:02:03.123"), None);
}

#[test]
fn required_field_reports_the_rejected_text() {
    assert_eq!(
        datetime_from_str("2022-01-01T01:02:03.123Z"),
        Ok(Timestamp::from_unix(1_640_998_923, 123_000_000).unwrap())
    );
    assert_eq!(
        datetime_from_str("soon"),
        Err("Parse Error soon".to_string())
    );
    assert_eq!(datetime_from_str(""), Err("Parse Error ".to_string()));
}

#[test]
fn optional_field_may_be_absent() {
    assert_eq!(optional_datetime_from_str(None), Ok(None));
    assert_eq!(
        optional_datetime_from_str(Some("2022-01-01T01:02:03.123Z")),
        Ok(Some(
            Timestamp::from_unix(1_640_998_923, 123_000_000).unwrap()
        ))
    );
    assert_eq!(
        optional_datetime_from_str(Some("soon")),
        Err("Parse Error soon".to_string())
    );
}

#[test]
fn require_instant_keeps_or_reports() {
    let held = Timestamp::from_unix(5, 0).unwrap();
    assert_eq!(require_instant(Some(held), "ignored"), Ok(held));
    assert_eq!(
        require_instant(None, "bad"),
        Err("Parse Error bad".to_string())
    );
}

#[test]
fn instants_outside_the_calendar_are_refused() {
    assert_eq!(Timestamp::from_unix(i64::MAX, 0), None);
    assert_eq!(Timestamp::from_unix(i64::MIN, 0), None);
    assert_eq!(Timestamp::from_unix(0, 2_000_000_000), None);
    assert_eq!(Timestamp::from_unix(0, 1_000_000_000), None);
    assert!(Timestamp::from_unix(59, 1_000_000_000).is_some());
}

#[test]
fn instants_keep_their_parts() {
    let instant = Timestamp::from_unix(-86_400, 7).unwrap();
    assert_eq!(instant.unix_seconds(), -86_400);
    assert_eq!(instant.subsec_nanos(), 7);
    assert_eq!(instant.utc_text(), "1969-12-31 00:00:00.000000007 UTC");
    assert_ne!(instant, Timestamp::from_unix(-86_400, 8).unwrap());
}

#[test]
fn instants_print_as_the_calendar_prints_them() {
    assert_eq!(
        format!("{:?}", Timestamp::from_unix(0, 0).unwrap()),
        "1970-01-01T00:00:00Z"
    );
    assert_eq!(
        format!("{:?}", date_parse("2022-01-01T01:02:03.123Z").unwrap()),
        "2022-01-01T01:02:03.123Z"
    );
}

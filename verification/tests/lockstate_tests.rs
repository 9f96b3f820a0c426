use check_updates::clock::{timestamp_to_local, MAX_TIMESTAMP, MIN_TIMESTAMP};
use check_updates::lockstate::{parse_timestamp, read_timestamp, render_timestamp, LockError};

#[test]
fn empty_body_holds_no_timestamp() {
    assert_eq!(parse_timestamp(""), Ok(None));
    assert_eq!(read_timestamp(""), Ok(None));
}

#[test]
fn write_then_read_round_trips_exactly() {
    for t in [0i64, 1, 42, 1_700_000_000, -1, -1_700_000_000, i64::MAX, i64::MIN] {
        let body = render_timestamp(t);
        assert_eq!(parse_timestamp(body.as_str()), Ok(Some(t)));
    }
}

#[test]
fn render_uses_plain_decimal() {
    assert_eq!(render_timestamp(1_700_000_000), "1700000000");
    assert_eq!(render_timestamp(0), "0");
    assert_eq!(render_timestamp(-95), "-95");
}

#[test]
fn non_numeric_body_is_a_parse_error() {
    assert_eq!(parse_timestamp("yesterday"), Err(LockError::ParseTimestamp));
    assert_eq!(parse_timestamp("  "), Err(LockError::ParseTimestamp));
    assert_eq!(parse_timestamp("12 34"), Err(LockError::ParseTimestamp));
    assert_eq!(parse_timestamp("99999999999999999999"), Err(LockError::ParseTimestamp));
    assert_eq!(read_timestamp("bogus"), Err(LockError::ParseTimestamp));
}

#[test]
fn surrounding_whitespace_is_trimmed() {
    assert_eq!(parse_timestamp(" 1700000000\n"), Ok(Some(1_700_000_000)));
    assert_eq!(parse_timestamp("\t-7 "), Ok(Some(-7)));
}

#[test]
fn timestamp_converts_to_a_calendar_time() {
    // Epoch rendered in any local time zone lands on the last day of
    // 1969 or the first of 1970.
    let t = timestamp_to_local(0).unwrap();
    assert!(t.year == 1969 || t.year == 1970);
    assert!((1..=12).contains(&t.month));
    assert!((1..=31).contains(&t.day));
    assert!(t.hour <= 23 && t.minute <= 59 && t.second <= 59);

    // A known later timestamp lands in the right year.
    let u = timestamp_to_local(1_700_000_000).unwrap();
    assert_eq!(u.year, 2023);

    // Far out of chrono's range: no conversion.
    assert!(timestamp_to_local(i64::MAX).is_none());
}

#[test]
fn out_of_range_timestamp_is_invalid() {
    let body = render_timestamp(i64::MAX);
    assert_eq!(read_timestamp(body.as_str()), Err(LockError::InvalidTimestamp));
}

#[test]
fn read_recovers_written_instant() {
    let body = render_timestamp(1_700_000_000);
    let t = read_timestamp(body.as_str()).unwrap().unwrap();
    let direct = timestamp_to_local(1_700_000_000).unwrap();
    assert_eq!(t, direct);
}

#[test]
fn conversion_succeeds_exactly_within_the_datetime_range() {
    assert!(timestamp_to_local(MIN_TIMESTAMP).is_some());
    assert!(timestamp_to_local(MAX_TIMESTAMP).is_some());
    assert!(timestamp_to_local(MIN_TIMESTAMP - 1).is_none());
    assert!(timestamp_to_local(MAX_TIMESTAMP + 1).is_none());
}

#[test]
fn unicode_whitespace_is_trimmed() {
    assert_eq!(parse_timestamp("\u{2009}42\u{a0}"), Ok(Some(42)));
}

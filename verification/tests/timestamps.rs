//! Instants and the texts that denote them.

use argus_events::{parse_timestamp, Error, Timestamp};

#[test]
fn the_epoch_is_zero() {
    assert_eq!(parse_timestamp("1970-01-01T00:00:00Z"), Ok(Timestamp { secs: 0, nanos: 0 }));
    assert_eq!(
        parse_timestamp("1969-12-31T23:59:59.999999999Z"),
        Ok(Timestamp { secs: -1, nanos: 999_999_999 })
    );
}

#[test]
fn an_offset_is_taken_off() {
    let utc = parse_timestamp("2025-06-16T12:00:00Z").unwrap();
    assert_eq!(utc, Timestamp { secs: 1750075200, nanos: 0 });
    assert_eq!(parse_timestamp("2025-06-16T14:00:00+02:00").unwrap(), utc);
    assert_eq!(parse_timestamp("2025-06-16T04:00:00-08:00").unwrap(), utc);
    assert_eq!(parse_timestamp("2025-06-16t12:00:00z").unwrap(), utc);
    assert_eq!(parse_timestamp("2025-06-16 12:00:00Z").unwrap(), utc);
}

#[test]
fn fractions_are_kept_to_the_nanosecond() {
    assert_eq!(
        parse_timestamp("2025-06-16T12:00:00.123456789Z"),
        Ok(Timestamp { secs: 1750075200, nanos: 123_456_789 })
    );
    assert_eq!(
        parse_timestamp("2025-06-16T12:00:00.001Z"),
        Ok(Timestamp { secs: 1750075200, nanos: 1_000_000 })
    );
}

#[test]
fn a_leap_second_runs_past_a_billion_nanoseconds() {
    let leap = parse_timestamp("2016-12-31T23:59:60Z").unwrap();
    assert_eq!(leap, Timestamp { secs: 1483228799, nanos: 1_000_000_000 });
    let before = parse_timestamp("2016-12-31T23:59:59.999Z").unwrap();
    let after = parse_timestamp("2017-01-01T00:00:00Z").unwrap();
    assert!(before.not_after(&leap));
    assert!(!leap.not_after(&before));
    assert!(leap.not_after(&after));
    assert!(!after.not_after(&leap));
}

#[test]
fn what_is_no_date_time_is_malformed() {
    for (text, complaint) in [
        ("", "premature end of input"),
        ("not-a-date", "premature end of input"),
        ("2025-06-16", "premature end of input"),
        ("2025-06-16T12:00:00", "premature end of input"),
        ("2025-13-16T12:00:00Z", "input is out of range"),
        ("2025-06-31T12:00:00Z", "input is out of range"),
        ("2025-06-16T24:00:00Z", "input is out of range"),
        ("2025-06-16T12:00:00Z trailing", "trailing input"),
        ("Mon, 16 Jun 2025 12:00:00 GMT", "input contains invalid characters"),
        ("2025-06-16T12:00:00\u{e9}", "input contains invalid characters"),
    ] {
        let error = parse_timestamp(text).unwrap_err();
        assert_eq!(error, Error::MalformedTimestamp(complaint.to_string()), "for {:?}", text);
        assert_eq!(error.message(), complaint, "for {:?}", text);
    }
}

#[test]
fn instants_order_by_seconds_then_nanoseconds() {
    let a = Timestamp { secs: 5, nanos: 999_999_999 };
    let b = Timestamp { secs: 6, nanos: 0 };
    let c = Timestamp { secs: 6, nanos: 1 };
    assert!(a.not_after(&a));
    assert!(a.not_after(&b));
    assert!(b.not_after(&c));
    assert!(a.not_after(&c));
    assert!(!b.not_after(&a));
    assert!(!c.not_after(&b));
    let negative = Timestamp { secs: -6, nanos: 5 };
    assert!(negative.not_after(&a));
    assert!(!a.not_after(&negative));
}

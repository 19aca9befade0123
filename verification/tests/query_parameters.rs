//! From URL parameters to a query.

use argus_events::{
    build_query, parse_query, parse_timestamp, Error, ErrorKind, EventQuery, GetEventsQuery,
    Timestamp,
};

fn params(event_type: Option<&str>, start: Option<&str>, end: Option<&str>) -> GetEventsQuery {
    GetEventsQuery {
        event_type: event_type.map(str::to_string),
        start: start.map(str::to_string),
        end: end.map(str::to_string),
    }
}

#[test]
fn no_parameters_ask_for_everything() {
    let query = parse_query(params(None, None, None)).expect("no parameter is a query");
    assert_eq!(query.event_type, None);
    assert_eq!(query.start, None);
    assert_eq!(query.end, None);

    let default = EventQuery::default();
    assert_eq!(default.event_type, None);
    assert_eq!(default.start, None);
    assert_eq!(default.end, None);
}

#[test]
fn the_type_is_taken_verbatim() {
    let query = parse_query(params(Some(" User Signup "), None, None)).expect("a type is a query");
    assert_eq!(query.event_type.as_deref(), Some(" User Signup "));

    let empty = parse_query(params(Some(""), None, None)).expect("the empty type is a query");
    assert_eq!(empty.event_type.as_deref(), Some(""));
}

#[test]
fn bounds_are_read_as_instants_in_utc() {
    let query = parse_query(params(
        None,
        Some("2025-06-16T12:30:00+02:00"),
        Some("2025-06-16T12:00:00.5Z"),
    ))
    .expect("both bounds are date-times");
    assert_eq!(query.start, Some(Timestamp { secs: 1750069800, nanos: 0 }));
    assert_eq!(query.end, Some(Timestamp { secs: 1750075200, nanos: 500_000_000 }));
}

#[test]
fn a_malformed_start_is_reported_first() {
    let too_short = "premature end of input".to_string();
    assert_eq!(
        parse_query(params(None, Some("not-a-date"), None)).unwrap_err(),
        Error::MalformedStart(too_short.clone())
    );
    assert_eq!(
        parse_query(params(None, Some("2024-01-20X00:00:00Z"), Some("neither"))).unwrap_err(),
        Error::MalformedStart("input contains invalid characters".to_string())
    );
    assert_eq!(
        parse_query(params(None, Some("2024-01-20T00:00:00Z"), Some("neither"))).unwrap_err(),
        Error::MalformedEnd(too_short.clone())
    );
    assert_eq!(
        parse_query(params(None, Some(""), None)).unwrap_err(),
        Error::MalformedStart(too_short.clone())
    );
    assert_eq!(
        parse_query(params(None, None, Some("2024-01-20"))).unwrap_err(),
        Error::MalformedEnd(too_short)
    );
    let out_of_range =
        parse_query(params(None, None, Some("2024-02-30T00:00:00Z"))).unwrap_err();
    assert_eq!(out_of_range.message(), "input is out of range");
}

#[test]
fn an_inverted_window_is_invalid() {
    let error = parse_query(params(
        Some("any"),
        Some("2024-01-20T00:00:00Z"),
        Some("2024-01-10T00:00:00Z"),
    ))
    .unwrap_err();
    assert_eq!(error, Error::InvertedRange);
    assert_eq!(error.kind(), ErrorKind::Invalid);
    assert_eq!(error.http_status(), 400);

    // a nanosecond is enough
    let later = Timestamp { secs: 7, nanos: 1 };
    let earlier = Timestamp { secs: 7, nanos: 0 };
    assert_eq!(build_query(None, Some(later), Some(earlier)).unwrap_err(), Error::InvertedRange);
    assert!(build_query(None, Some(earlier), Some(later)).is_ok());
}

#[test]
fn equal_bounds_are_a_valid_window() {
    let query = parse_query(params(
        None,
        Some("2024-01-20T00:00:00Z"),
        Some("2024-01-20T00:00:00Z"),
    ))
    .expect("equal bounds are in order");
    let at = Timestamp { secs: 1705708800, nanos: 0 };
    assert_eq!(query.start, Some(at));
    assert_eq!(query.end, Some(at));
    assert!(query.admits(&at));
    assert!(!query.admits(&Timestamp { secs: 1705708800, nanos: 1 }));
    assert!(!query.admits(&Timestamp { secs: 1705708799, nanos: 999_999_999 }));
}

#[test]
fn a_window_with_one_bound_is_open_at_the_other_end() {
    let at = parse_timestamp("2024-01-20T00:00:00Z").unwrap();
    let from = build_query(None, Some(at), None).unwrap();
    assert!(from.admits(&at));
    assert!(from.admits(&Timestamp { secs: i64::MAX, nanos: 0 }));
    assert!(!from.admits(&Timestamp { secs: at.secs - 1, nanos: 0 }));

    let until = build_query(None, None, Some(at)).unwrap();
    assert!(until.admits(&at));
    assert!(until.admits(&Timestamp { secs: i64::MIN, nanos: 0 }));
    assert!(!until.admits(&Timestamp { secs: at.secs, nanos: 1 }));
}

#[test]
fn every_error_has_its_kind_and_status() {
    let cases = [
        (
            Error::UnknownRepository("redis".to_string()),
            ErrorKind::Invalid,
            400,
            "Unknown repository type: 'redis'",
        ),
        (
            Error::UnknownMetricsType("statsd".to_string()),
            ErrorKind::Invalid,
            400,
            "Invalid value for ARGUS_METRICS_TYPE: statsd",
        ),
        (Error::MalformedTimestamp("said".to_string()), ErrorKind::Invalid, 400, "said"),
        (Error::MalformedStart("said".to_string()), ErrorKind::Invalid, 400, "said"),
        (Error::MalformedEnd("said".to_string()), ErrorKind::Invalid, 400, "said"),
        (Error::InvertedRange, ErrorKind::Invalid, 400, "start must not be after end"),
        (
            Error::Backend,
            ErrorKind::Backend,
            500,
            "The repository could not complete the operation",
        ),
        (
            Error::RecorderInstall("said".to_string()),
            ErrorKind::Backend,
            500,
            "Failed to install Prometheus recorder: said",
        ),
        (
            Error::NotInitialized,
            ErrorKind::NotInitialized,
            500,
            "Metrics recorder not initialized. Call init_metrics() first.",
        ),
    ];
    for (error, kind, status, message) in cases {
        assert_eq!(error.kind(), kind);
        assert_eq!(error.http_status(), status);
        assert_eq!(error.message(), message);
        assert_eq!(error.clone(), error);
    }
}

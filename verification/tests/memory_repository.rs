//! The in-memory repository, through its public operations.

use argus_events::{
    parse_timestamp, Event, EventQuery, EventRepository, InMemoryEventRepository, Timestamp,
};

fn at(text: &str) -> Timestamp {
    parse_timestamp(text).expect("a valid RFC 3339 date-time")
}

fn make_event(event_type: &str, timestamp: &str) -> Event {
    let mut payload = serde_json::Map::new();
    payload.insert("key".to_string(), serde_json::Value::String("value".to_string()));
    Event {
        id: uuid::Uuid::new_v4().as_u128(),
        event_type: event_type.to_string(),
        timestamp: at(timestamp),
        payload: serde_json::Value::Object(payload),
    }
}

#[test]
fn store_and_fetch_event() {
    let mut repo = InMemoryEventRepository::new();
    let event = make_event("signup", "2025-06-16T12:00:00Z");
    repo.store_event(event.clone()).expect("store succeeds");

    let all = repo.find_events(EventQuery::default()).expect("find succeeds");
    assert_eq!(all.len(), 1, "Expected 1 event, got {}", all.len());
    assert_eq!(all[0].event_type, "signup");
}

#[test]
fn filter_by_event_type() {
    let mut repo = InMemoryEventRepository::new();
    repo.store_event(make_event("signup", "2025-06-16T12:00:00Z")).expect("store succeeds");
    repo.store_event(make_event("login", "2025-06-16T12:05:00Z")).expect("store succeeds");

    let results = repo
        .find_events(EventQuery { event_type: Some("login".into()), start: None, end: None })
        .expect("find succeeds");

    assert_eq!(results.len(), 1);
    assert_eq!(results[0].event_type, "login");
}

#[test]
fn filter_by_time_range() {
    let mut repo = InMemoryEventRepository::new();
    repo.store_event(make_event("test", "2025-06-16T10:00:00Z")).expect("store succeeds");
    repo.store_event(make_event("test", "2025-06-16T11:00:00Z")).expect("store succeeds");
    repo.store_event(make_event("test", "2025-06-16T12:00:00Z")).expect("store succeeds");

    let start = at("2025-06-16T10:30:00Z");
    let end = at("2025-06-16T11:30:00Z");

    let results = repo
        .find_events(EventQuery {
            event_type: Some("test".into()),
            start: Some(start),
            end: Some(end),
        })
        .expect("find succeeds");

    assert_eq!(results.len(), 1);
    assert_eq!(results[0].timestamp, at("2025-06-16T11:00:00Z"));
}

#[test]
fn returns_empty_if_no_matches() {
    let repo = InMemoryEventRepository::new();
    let results = repo
        .find_events(EventQuery { event_type: Some("nonexistent".into()), start: None, end: None })
        .expect("find succeeds");

    assert!(results.is_empty(), "Expected empty result set");
}

fn numbered(id: u128, event_type: &str, secs: i64) -> Event {
    Event {
        id,
        event_type: event_type.to_string(),
        timestamp: Timestamp { secs, nanos: 0 },
        payload: serde_json::Value::from(id as u64),
    }
}

fn filled() -> (InMemoryEventRepository, Vec<Event>) {
    let mut repo = InMemoryEventRepository::new();
    let mut stored = Vec::new();
    let types = ["alpha", "beta", "gamma", "delta", ""];
    for i in 0..60u128 {
        let event = numbered(i, types[(i % 5) as usize], 100 + (i as i64 * 7) % 40);
        repo.store_event(event.clone()).expect("store succeeds");
        stored.push(event);
    }
    (repo, stored)
}

fn passes(event: &Event, query: &EventQuery) -> bool {
    query.event_type.as_ref().map_or(true, |wanted| *wanted == event.event_type)
        && query.start.map_or(true, |start| start.not_after(&event.timestamp))
        && query.end.map_or(true, |end| event.timestamp.not_after(&end))
}

fn sorted_ids(events: &[Event]) -> Vec<u128> {
    let mut ids: Vec<u128> = events.iter().map(|event| event.id).collect();
    ids.sort();
    ids
}

#[test]
fn every_stored_event_is_found_once() {
    let (repo, stored) = filled();
    let found = repo.find_events(EventQuery::default()).expect("find succeeds");
    assert_eq!(found.len(), stored.len());
    for event in &stored {
        let copies: Vec<&Event> = found.iter().filter(|other| other.id == event.id).collect();
        assert_eq!(copies.len(), 1, "event {} should be found once", event.id);
        assert_eq!(copies[0].event_type, event.event_type);
        assert_eq!(copies[0].timestamp, event.timestamp);
        assert_eq!(copies[0].payload, event.payload);
    }
}

#[test]
fn an_event_stored_twice_is_found_twice() {
    let mut repo = InMemoryEventRepository::new();
    let event = numbered(1, "twin", 5);
    repo.store_event(event.clone()).unwrap();
    repo.store_event(event).unwrap();
    assert_eq!(repo.find_events(EventQuery::default()).unwrap().len(), 2);
}

#[test]
fn a_find_returns_exactly_what_passes_the_filter() {
    let (repo, stored) = filled();
    let types = [None, Some("alpha"), Some("delta"), Some(""), Some("missing"), Some("ALPHA")];
    let bounds = [None, Some(99), Some(100), Some(117), Some(139), Some(140)];
    for event_type in types {
        for start in bounds {
            for end in bounds {
                let query = EventQuery {
                    event_type: event_type.map(str::to_string),
                    start: start.map(|secs| Timestamp { secs, nanos: 0 }),
                    end: end.map(|secs| Timestamp { secs, nanos: 0 }),
                };
                let expected: Vec<Event> =
                    stored.iter().filter(|event| passes(event, &query)).cloned().collect();
                let found = repo.find_events(query.clone()).expect("find succeeds");
                assert_eq!(sorted_ids(&found), sorted_ids(&expected), "for {:?}", query);
                if query.event_type.is_some() {
                    let in_order: Vec<u128> = expected.iter().map(|event| event.id).collect();
                    let found_order: Vec<u128> = found.iter().map(|event| event.id).collect();
                    assert_eq!(found_order, in_order, "for {:?}", query);
                }
            }
        }
    }
}

#[test]
fn stored_events_do_not_change() {
    let (mut repo, stored) = filled();
    let typed = EventQuery { event_type: Some("beta".to_string()), start: None, end: None };
    let before = repo.find_events(typed.clone()).unwrap();
    let _ = repo.find_events(EventQuery::default()).unwrap();
    for i in 0..20u128 {
        repo.store_event(numbered(1000 + i, "beta", 1)).unwrap();
        repo.store_event(numbered(2000 + i, "epsilon", 1)).unwrap();
    }
    let after = repo.find_events(typed).unwrap();
    assert_eq!(after.len(), before.len() + 20);
    for (old, new) in before.iter().zip(after.iter()) {
        assert_eq!(old.id, new.id);
        assert_eq!(old.event_type, new.event_type);
        assert_eq!(old.timestamp, new.timestamp);
        assert_eq!(old.payload, new.payload);
    }
    let all = repo.find_events(EventQuery::default()).unwrap();
    for event in &stored {
        let kept = all.iter().find(|other| other.id == event.id).expect("still retained");
        assert_eq!(kept.event_type, event.event_type);
        assert_eq!(kept.timestamp, event.timestamp);
        assert_eq!(kept.payload, event.payload);
    }
}

#[test]
fn both_bounds_are_inclusive() {
    let mut repo = InMemoryEventRepository::new();
    repo.store_event(make_event("edge", "2025-06-16T11:59:59.999999999Z")).unwrap();
    repo.store_event(make_event("edge", "2025-06-16T12:00:00Z")).unwrap();
    repo.store_event(make_event("edge", "2025-06-16T12:00:00.000000001Z")).unwrap();

    let instant = at("2025-06-16T12:00:00Z");
    for event_type in [None, Some("edge".to_string())] {
        let found = repo
            .find_events(EventQuery { event_type, start: Some(instant), end: Some(instant) })
            .unwrap();
        assert_eq!(found.len(), 1);
        assert_eq!(found[0].timestamp, instant);
    }
}

#[test]
fn events_at_the_same_instant_are_all_returned() {
    let mut repo = InMemoryEventRepository::new();
    for _ in 0..3 {
        repo.store_event(make_event("tie", "2025-06-16T12:00:00Z")).unwrap();
    }
    let instant = at("2025-06-16T12:00:00Z");
    let found = repo
        .find_events(EventQuery {
            event_type: Some("tie".to_string()),
            start: Some(instant),
            end: Some(instant),
        })
        .unwrap();
    assert_eq!(found.len(), 3);
}

#[test]
fn an_inverted_window_admits_nothing() {
    let (repo, _) = filled();
    let found = repo
        .find_events(EventQuery {
            event_type: None,
            start: Some(Timestamp { secs: 130, nanos: 0 }),
            end: Some(Timestamp { secs: 110, nanos: 0 }),
        })
        .unwrap();
    assert!(found.is_empty());
}

#[test]
fn an_empty_repository_has_nothing_to_find() {
    let repo = InMemoryEventRepository::default();
    assert!(repo.find_events(EventQuery::default()).unwrap().is_empty());
    let typed = EventQuery { event_type: Some("x".to_string()), start: None, end: None };
    assert!(repo.find_events(typed).unwrap().is_empty());
}

#[test]
fn a_copy_of_an_event_is_the_same_event() {
    let event = make_event("copied", "2025-06-16T12:00:00Z");
    let copy = event.clone();
    assert_eq!(copy.id, event.id);
    assert_eq!(copy.event_type, event.event_type);
    assert_eq!(copy.timestamp, event.timestamp);
    assert_eq!(copy.payload, event.payload);
}

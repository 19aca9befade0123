//! The filter that a find applies: an optional type and an optional,
//! inclusive window of time.

use vstd::prelude::*;

use super::event::EventView;
use super::timestamp::Timestamp;

verus! {

/// Query parameters for retrieving events. An unset field filters nothing.
#[derive(Debug)]
pub struct EventQuery {
    /// Keep only events of this type.
    pub event_type: Option<String>,
    /// Keep only events at or after this instant.
    pub start: Option<Timestamp>,
    /// Keep only events at or before this instant.
    pub end: Option<Timestamp>,
}

/// A query, apart from how its text is held in memory.
pub struct QueryView {
    pub event_type: Option<Seq<char>>,
    pub start: Option<Timestamp>,
    pub end: Option<Timestamp>,
}

impl View for EventQuery {
    type V = QueryView;

    open spec fn view(&self) -> QueryView {
        QueryView {
            event_type: match self.event_type {
                Some(event_type) => Some(event_type@),
                None => None,
            },
            start: self.start,
            end: self.end,
        }
    }
}

impl QueryView {
    /// The query that filters nothing.
    pub open spec fn everything() -> QueryView {
        QueryView { event_type: None, start: None, end: None }
    }

    /// The instant lies in the window, both ends included.
    pub open spec fn admits(self, at: Timestamp) -> bool {
        &&& (self.start matches Some(start) ==> start.le(at))
        &&& (self.end matches Some(end) ==> at.le(end))
    }

    /// The type is the one asked for, or none was asked for.
    pub open spec fn names(self, event_type: Seq<char>) -> bool {
        self.event_type matches Some(wanted) ==> wanted == event_type
    }

    /// The event passes the filter.
    pub open spec fn accepts(self, event: EventView) -> bool {
        self.names(event.event_type) && self.admits(event.timestamp)
    }

    /// `accepts` as a predicate.
    pub open spec fn accepting(self) -> spec_fn(EventView) -> bool {
        |event: EventView| self.accepts(event)
    }

    /// `admits`, of an event's instant, as a predicate.
    pub open spec fn admitting(self) -> spec_fn(EventView) -> bool {
        |event: EventView| self.admits(event.timestamp)
    }

    /// Those of `events` that pass the filter, in their order.
    pub open spec fn selected(self, events: Seq<EventView>) -> Seq<EventView> {
        events.filter(self.accepting())
    }

    /// The window is not inverted: where both ends are set, `start` is `end`
    /// or lies before it.
    pub open spec fn ordered(self) -> bool {
        self.start matches Some(start) ==> (self.end matches Some(end) ==> start.le(end))
    }
}

/// The predicate "is of this type".
pub open spec fn typed(event_type: Seq<char>) -> spec_fn(EventView) -> bool {
    |event: EventView| event.event_type == event_type
}

/// Those of `events` that are of the given type, in their order.
pub open spec fn of_type(events: Seq<EventView>, event_type: Seq<char>) -> Seq<EventView> {
    events.filter(typed(event_type))
}

impl Clone for EventQuery {
    fn clone(&self) -> (copy: EventQuery)
        ensures
            copy@ == self@,
    {
        EventQuery {
            event_type: match &self.event_type {
                Some(event_type) => Some(event_type.clone()),
                None => None,
            },
            start: self.start,
            end: self.end,
        }
    }
}

impl Default for EventQuery {
    /// The query that filters nothing.
    fn default() -> (query: EventQuery)
        ensures
            query@ == QueryView::everything(),
    {
        EventQuery { event_type: None, start: None, end: None }
    }
}

impl EventQuery {
    /// Whether the instant lies in the query's window, both ends included.
    pub fn admits(&self, at: &Timestamp) -> (r: bool)
        ensures
            r == self@.admits(*at),
    {
        let after_start = match &self.start {
            Some(start) => start.not_after(at),
            None => true,
        };
        let before_end = match &self.end {
            Some(end) => at.not_after(end),
            None => true,
        };
        after_start && before_end
    }
}

} // verus!

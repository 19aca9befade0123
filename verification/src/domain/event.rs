//! The event: an immutable record of something that happened.

use vstd::prelude::*;

use super::timestamp::Timestamp;

verus! {

/// `serde_json::Value`, the free-form document that an event carries. Nothing
/// in this crate looks inside one.
#[verifier::external_type_specification]
#[verifier::external_body]
pub struct ExJsonValue(serde_json::Value);

/// `Clone` for `serde_json::Value`, which the crate derives: the copy is the
/// same document as the one it was made from.
pub assume_specification[ <serde_json::Value as Clone>::clone ](
    document: &serde_json::Value,
) -> (copy: serde_json::Value)
    ensures
        copy == *document,
;

/// A single event submitted to the tracking system.
#[derive(Debug)]
pub struct Event {
    /// The 128-bit identifier assigned on submission.
    pub id: u128,
    /// The category of the event, such as `user_signup`. Case-sensitive.
    pub event_type: String,
    /// When the event occurred.
    pub timestamp: Timestamp,
    /// The structured document that came with the event.
    pub payload: serde_json::Value,
}

/// What an event is, apart from how its text is held in memory.
pub struct EventView {
    pub id: u128,
    pub event_type: Seq<char>,
    pub timestamp: Timestamp,
    pub payload: serde_json::Value,
}

impl View for Event {
    type V = EventView;

    open spec fn view(&self) -> EventView {
        EventView {
            id: self.id,
            event_type: self.event_type@,
            timestamp: self.timestamp,
            payload: self.payload,
        }
    }
}

impl Clone for Event {
    fn clone(&self) -> (copy: Event)
        ensures
            copy@ == self@,
    {
        Event {
            id: self.id,
            event_type: self.event_type.clone(),
            timestamp: self.timestamp,
            payload: self.payload.clone(),
        }
    }
}

/// The events that a vector holds, each by its view.
pub open spec fn views(events: Seq<Event>) -> Seq<EventView> {
    events.map_values(|event: Event| event@)
}

} // verus!

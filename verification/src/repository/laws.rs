//! What the contracts of `store_event` and `find_events` add up to.

use vstd::multiset::Multiset;
use vstd::prelude::*;

use crate::domain::{answers, EventView, QueryView};
use crate::filtering::{lemma_empty_to_multiset, lemma_filter_none};

verus! {

/// What a retaining repository holds after it has stored `events`, one after
/// the other and each with success, on top of `before`.
pub open spec fn after_stores(before: Seq<EventView>, events: Seq<EventView>) -> Seq<EventView>
    decreases events.len(),
{
    if events.len() == 0 {
        before
    } else {
        after_stores(before, events.drop_last()).push(events.last())
    }
}

/// No two of the events share an identifier.
pub open spec fn distinct_ids(events: Seq<EventView>) -> bool {
    forall|i: int, j: int| 0 <= i < j < events.len() ==> events[i].id != events[j].id
}

/// No event carries the identifier.
pub open spec fn unused_id(events: Seq<EventView>, id: u128) -> bool {
    forall|i: int| 0 <= i < events.len() ==> (#[trigger] events[i]).id != id
}

/// A run of stores appends the stored events, in the order of the calls.
pub proof fn lemma_stores_append(before: Seq<EventView>, events: Seq<EventView>)
    ensures
        after_stores(before, events) == before + events,
    decreases events.len(),
{
    if events.len() == 0 {
        assert(before + events =~= before);
    } else {
        lemma_stores_append(before, events.drop_last());
        assert((before + events.drop_last()).push(events.last()) =~= before + events);
    }
}

/// Filtering keeps every occurrence of an element that meets the predicate,
/// and none of an element that does not.
pub proof fn lemma_filter_count<A>(s: Seq<A>, p: spec_fn(A) -> bool, x: A)
    ensures
        s.filter(p).to_multiset().count(x) == if p(x) {
            s.to_multiset().count(x)
        } else {
            0
        },
    decreases s.len(),
{
    reveal(Seq::filter);
    broadcast use vstd::seq_lib::to_multiset_build;

    if s.len() == 0 {
        lemma_empty_to_multiset::<A>();
        assert(s =~= Seq::<A>::empty());
        assert(s.filter(p) =~= Seq::<A>::empty());
    } else {
        let front = s.drop_last();
        let last = s.last();
        lemma_filter_count(front, p, x);
        assert(s =~= front.push(last));
        assert(s.to_multiset() =~= front.to_multiset().insert(last));
        if p(last) {
            assert(s.filter(p).to_multiset() =~= front.filter(p).to_multiset().insert(last));
        }
    }
}

/// Filter correctness: an event is found exactly if it is retained and passes
/// the filter, and then as often as it is retained.
pub proof fn lemma_found_are_the_selected(
    retained: Seq<EventView>,
    query: QueryView,
    found: Seq<EventView>,
    event: EventView,
)
    requires
        answers(found, retained, query),
    ensures
        found.contains(event) <==> retained.contains(event) && query.accepts(event),
        found.to_multiset().count(event) == if query.accepts(event) {
            retained.to_multiset().count(event)
        } else {
            0
        },
{
    lemma_filter_count(retained, query.accepting(), event);
    found.to_multiset_ensures();
    retained.to_multiset_ensures();
}

/// Durability within a run: after any run of successful stores on a new
/// repository, a find returns every stored event that passes the query, as
/// often as it was stored; that is once, where the stored events have
/// distinct identifiers.
pub proof fn lemma_stored_events_are_found(
    events: Seq<EventView>,
    query: QueryView,
    found: Seq<EventView>,
    i: int,
)
    requires
        answers(found, after_stores(Seq::empty(), events), query),
        0 <= i < events.len(),
        query.accepts(events[i]),
    ensures
        found.contains(events[i]),
        found.to_multiset().count(events[i]) == events.to_multiset().count(events[i]),
        distinct_ids(events) ==> found.to_multiset().count(events[i]) == 1,
{
    lemma_stores_append(Seq::empty(), events);
    assert(Seq::<EventView>::empty() + events =~= events);
    assert(events.contains(events[i]));
    lemma_found_are_the_selected(events, query, found, events[i]);
    if distinct_ids(events) {
        assert(events.no_duplicates());
        events.lemma_multiset_has_no_duplicates();
        events.to_multiset_ensures();
    }
}

/// Identifier uniqueness: where the stored events have distinct identifiers,
/// they still have after a store of an event whose identifier none of them
/// carries.
pub proof fn lemma_unused_id_keeps_ids_distinct(retained: Seq<EventView>, event: EventView)
    requires
        distinct_ids(retained),
        unused_id(retained, event.id),
    ensures
        distinct_ids(retained.push(event)),
{
}

/// Immutability: a store leaves every event that was retained before it where
/// and as it was.
pub proof fn lemma_store_keeps_earlier_events(retained: Seq<EventView>, event: EventView, i: int)
    requires
        0 <= i < retained.len(),
    ensures
        retained.push(event)[i] == retained[i],
        after_stores(retained, seq![event])[i] == retained[i],
{
    lemma_stores_append(retained, seq![event]);
}

/// A find on a repository that retains nothing finds nothing, whatever the
/// query.
pub proof fn lemma_nothing_retained_nothing_found(query: QueryView, found: Seq<EventView>)
    requires
        answers(found, Seq::empty(), query),
    ensures
        found == Seq::<EventView>::empty(),
{
    lemma_filter_none(Seq::<EventView>::empty(), query.accepting());
    lemma_empty_to_multiset::<EventView>();
    found.to_multiset_ensures();
    assert(found =~= Seq::<EventView>::empty());
}

/// A find for a type of which nothing is retained finds nothing.
pub proof fn lemma_unknown_type_finds_nothing(
    retained: Seq<EventView>,
    query: QueryView,
    found: Seq<EventView>,
)
    requires
        answers(found, retained, query),
        query.event_type is Some,
        forall|i: int|
            0 <= i < retained.len() ==> (#[trigger] retained[i]).event_type
                != query.event_type->Some_0,
    ensures
        found == Seq::<EventView>::empty(),
{
    lemma_filter_none(retained, query.accepting());
    lemma_empty_to_multiset::<EventView>();
    found.to_multiset_ensures();
    assert(found =~= Seq::<EventView>::empty());
}

/// Both ends of the window are included: a query whose `start` and `end` are
/// the instant of an event admits that event.
pub proof fn lemma_bounds_are_inclusive(event: EventView, event_type: Option<Seq<char>>)
    ensures
        (QueryView {
            event_type,
            start: Some(event.timestamp),
            end: Some(event.timestamp),
        }).admits(event.timestamp),
        (QueryView {
            event_type,
            start: Some(event.timestamp),
            end: Some(event.timestamp),
        }).ordered(),
        (QueryView { event_type: None, start: Some(event.timestamp), end: Some(event.timestamp) })
            .accepts(event),
{
}

} // verus!

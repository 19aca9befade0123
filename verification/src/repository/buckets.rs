//! The concurrent map that holds the events, one bucket for each event type,
//! and what this crate takes on trust about it.

use dashmap::DashMap;
use vstd::prelude::*;

use crate::domain::{views, Event, EventView};

verus! {

/// `dashmap::DashMap`, a sharded hash map.
#[verifier::external_type_specification]
#[verifier::external_body]
#[verifier::reject_recursive_types(K)]
#[verifier::reject_recursive_types(V)]
#[verifier::reject_recursive_types(S)]
pub struct ExDashMap<K, V, S>(DashMap<K, V, S>);

/// What the map holds: for each event type that has a bucket, the events of
/// that bucket in the order in which they were appended.
pub uninterp spec fn buckets(map: DashMap<String, Vec<Event>>) -> Map<Seq<char>, Seq<EventView>>;

/// The map without buckets.
pub open spec fn no_buckets() -> Map<Seq<char>, Seq<EventView>> {
    Map::empty()
}

/// The bucket of a type, where a type without a bucket has the empty one.
pub open spec fn bucket_or_empty(
    held: Map<Seq<char>, Seq<EventView>>,
    event_type: Seq<char>,
) -> Seq<EventView> {
    if held.dom().contains(event_type) {
        held[event_type]
    } else {
        Seq::empty()
    }
}

/// `DashMap::new`: a map without entries.
#[verifier::external_body]
pub(crate) fn new_buckets() -> (fresh: DashMap<String, Vec<Event>>)
    ensures
        buckets(fresh) == no_buckets(),
{
    DashMap::new()
}

/// `DashMap::entry` with the event's type, `Entry::or_default` on what it
/// returns, and `Vec::push` through the guard: the bucket of that type, made
/// empty first where the map had none, gets the event at its end. No other
/// bucket changes.
#[verifier::external_body]
pub(crate) fn append_to_bucket(map: &mut DashMap<String, Vec<Event>>, event: Event)
    ensures
        buckets(*final(map)) == buckets(*old(map)).insert(
            event@.event_type,
            bucket_or_empty(buckets(*old(map)), event@.event_type).push(event@),
        ),
{
    map.entry(event.event_type.clone()).or_default().push(event);
}

/// `DashMap::get`, and a clone of the bucket it guards: the events of the
/// type's bucket, or `None` where the map has no bucket of that type.
#[verifier::external_body]
pub(crate) fn read_bucket(
    map: &DashMap<String, Vec<Event>>,
    event_type: &String,
) -> (found: Option<Vec<Event>>)
    ensures
        match found {
            Some(events) => {
                &&& buckets(*map).dom().contains(event_type@)
                &&& views(events@) == buckets(*map)[event_type@]
            },
            None => !buckets(*map).dom().contains(event_type@),
        },
{
    map.get(event_type).map(|bucket| bucket.value().clone())
}

/// `DashMap::iter`, and a clone of each entry it yields: every bucket of the
/// map once, with its type. The order of the buckets is that of the walk over
/// the shards, of which nothing is claimed.
#[verifier::external_body]
pub(crate) fn read_all_buckets(
    map: &DashMap<String, Vec<Event>>,
) -> (all: Vec<(String, Vec<Event>)>)
    ensures
        forall|i: int, j: int| 0 <= i < j < all@.len() ==> all@[i].0@ != all@[j].0@,
        forall|i: int|
            0 <= i < all@.len() ==> {
                &&& buckets(*map).dom().contains(#[trigger] all@[i].0@)
                &&& views(all@[i].1@) == buckets(*map)[all@[i].0@]
            },
        forall|event_type: Seq<char>|
            #[trigger] buckets(*map).dom().contains(event_type) ==> exists|i: int|
                0 <= i < all@.len() && all@[i].0@ == event_type,
{
    map.iter().map(|entry| (entry.key().clone(), entry.value().clone())).collect()
}

} // verus!

//! The in-memory store: events grouped by type in a concurrent map.

use dashmap::DashMap;
use vstd::prelude::*;

use super::buckets::{append_to_bucket, buckets, new_buckets, read_all_buckets, read_bucket};
use crate::domain::{
    of_type, typed, views, Error, Event, EventQuery, EventRepository, EventView, QueryView,
};
use crate::filtering::{
    lemma_empty_to_multiset, lemma_filter_agree, lemma_filter_none, lemma_filter_split,
    lemma_filter_twice, lemma_map_push,
};

verus! {

/// The predicate "is of one of these types, and in the query's window".
spec fn among(types: Seq<Seq<char>>, query: QueryView) -> spec_fn(EventView) -> bool {
    |event: EventView| types.contains(event.event_type) && query.admits(event.timestamp)
}

/// The predicate "is of this type, and in the query's window".
spec fn typed_admitting(event_type: Seq<char>, query: QueryView) -> spec_fn(EventView) -> bool {
    |event: EventView| event.event_type == event_type && query.admits(event.timestamp)
}

/// The types under which the buckets of a walk over the map came out.
spec fn types_of(all: Seq<(String, Vec<Event>)>) -> Seq<Seq<char>> {
    Seq::new(all.len(), |i: int| all[i].0@)
}

/// For a query that names a type, the events of that type's bucket that are
/// in the window are the events that the query selects.
proof fn lemma_one_bucket_answers(accepted: Seq<EventView>, query: QueryView)
    requires
        query.event_type is Some,
    ensures
        of_type(accepted, query.event_type->Some_0).filter(query.admitting()) == query.selected(
            accepted,
        ),
{
    lemma_filter_twice(
        accepted,
        typed(query.event_type->Some_0),
        query.admitting(),
        query.accepting(),
    );
}

/// Taking one more bucket into account adds the events of that bucket that
/// are in the window, and nothing else.
proof fn lemma_one_more_bucket(
    accepted: Seq<EventView>,
    types: Seq<Seq<char>>,
    at: int,
    query: QueryView,
)
    requires
        types.no_duplicates(),
        0 <= at < types.len(),
    ensures
        accepted.filter(among(types.take(at + 1), query)).to_multiset() == accepted.filter(
            among(types.take(at), query),
        ).to_multiset().add(of_type(accepted, types[at]).filter(query.admitting()).to_multiset()),
{
    let earlier = types.take(at);
    let upto = types.take(at + 1);
    let this = typed_admitting(types[at], query);
    assert(upto =~= earlier.push(types[at]));
    assert(!earlier.contains(types[at]));
    lemma_filter_twice(accepted, typed(types[at]), query.admitting(), this);
    assert forall|i: int| 0 <= i < accepted.len() implies among(upto, query)(
        #[trigger] accepted[i],
    ) == (among(earlier, query)(accepted[i]) || this(accepted[i])) by {
        let event_type = accepted[i].event_type;
        if upto.contains(event_type) {
            let k = choose|k: int| 0 <= k < upto.len() && upto[k] == event_type;
            if k < at {
                assert(earlier[k] == event_type);
            }
        }
        if earlier.contains(event_type) {
            let k = choose|k: int| 0 <= k < earlier.len() && earlier[k] == event_type;
            assert(upto[k] == event_type);
        }
        if event_type == types[at] {
            assert(upto[at] == event_type);
        }
    }
    lemma_filter_split(accepted, among(earlier, query), this, among(upto, query));
}

/// For a query that names no type, the events of all buckets that are in the
/// window are the events that the query selects, where every event has its
/// bucket.
proof fn lemma_all_buckets_answer(
    accepted: Seq<EventView>,
    types: Seq<Seq<char>>,
    query: QueryView,
)
    requires
        query.event_type is None,
        forall|i: int| 0 <= i < accepted.len() ==> types.contains(#[trigger] accepted[i].event_type),
    ensures
        accepted.filter(among(types, query)) == query.selected(accepted),
{
    lemma_filter_agree(accepted, among(types, query), query.accepting());
}

/// Appends to `kept` those of `bucket` whose instant the query's window
/// admits, in the order of the bucket.
fn keep_admitted(bucket: Vec<Event>, query: &EventQuery, kept: &mut Vec<Event>)
    ensures
        views(final(kept)@) == views(old(kept)@) + views(bucket@).filter(query@.admitting()),
{
    let ghost before = views(kept@);
    let ghost all = views(bucket@);
    let ghost admitting = query@.admitting();
    proof {
        lemma_filter_none(all.take(0), admitting);
        assert(views(kept@) =~= before + all.take(0).filter(admitting));
    }
    for event in walk: bucket
        invariant
            all == views(bucket@),
            admitting == query@.admitting(),
            views(kept@) == before + all.take(walk.index() as int).filter(admitting),
    {
        let ghost seen = all.take(walk.index() as int);
        proof {
            assert(all.take(walk.index() + 1) =~= seen.push(event@));
            seen.lemma_filter_push(event@, admitting);
        }
        if query.admits(&event.timestamp) {
            proof {
                lemma_map_push(kept@, event, |e: Event| e@);
                assert(before + seen.filter(admitting).push(event@) =~= (before + seen.filter(
                    admitting,
                )).push(event@));
            }
            kept.push(event);
        }
    }
    proof {
        assert(all.take(all.len() as int) =~= all);
    }
}

/// A thread-safe, in-memory event repository. Events are grouped by type, so
/// that a find for one type reads one bucket.
pub struct InMemoryEventRepository {
    /// Maps each event type to the events of that type, oldest first.
    store: DashMap<String, Vec<Event>>,
    /// Every event that was stored, oldest first.
    accepted: Ghost<Seq<EventView>>,
}

impl InMemoryEventRepository {
    /// Each bucket holds exactly the accepted events of its type, in the
    /// order of their acceptance, and every accepted event has its bucket.
    pub closed spec fn grouped(&self) -> bool {
        let held = buckets(self.store);
        let accepted = self.accepted@;
        &&& forall|event_type: Seq<char>| #[trigger]
            held.dom().contains(event_type) ==> held[event_type] == of_type(accepted, event_type)
        &&& forall|i: int|
            0 <= i < accepted.len() ==> held.dom().contains(#[trigger] accepted[i].event_type)
    }

    /// Every event that was stored, oldest first.
    pub closed spec fn accepted(&self) -> Seq<EventView> {
        self.accepted@
    }

    /// Creates a new, empty in-memory repository.
    pub fn new() -> (repository: InMemoryEventRepository)
        ensures
            repository.wf(),
            repository.retained() == Seq::<EventView>::empty(),
    {
        InMemoryEventRepository { store: new_buckets(), accepted: Ghost(Seq::empty()) }
    }

    /// The events of the query's type that are in its window, in the order in
    /// which they were stored.
    fn find_of_type(&self, event_type: &String, query: &EventQuery) -> (found: Vec<Event>)
        requires
            self.grouped(),
            query@.event_type == Some(event_type@),
        ensures
            views(found@) == query@.selected(self.accepted()),
    {
        let mut found: Vec<Event> = Vec::new();
        proof {
            assert(views(found@) =~= Seq::<EventView>::empty());
        }
        match read_bucket(&self.store, event_type) {
            Some(bucket) => {
                keep_admitted(bucket, query, &mut found);
                proof {
                    lemma_one_bucket_answers(self.accepted@, query@);
                    assert(views(found@) =~= query@.selected(self.accepted@));
                }
            },
            None => {
                proof {
                    let accepted = self.accepted@;
                    assert forall|i: int| 0 <= i < accepted.len() implies !query@.accepting()(
                        #[trigger] accepted[i],
                    ) by {
                        assert(buckets(self.store).dom().contains(accepted[i].event_type));
                    }
                    lemma_filter_none(accepted, query@.accepting());
                }
            },
        }
        found
    }

    /// The events of every type that are in the query's window, bucket after
    /// bucket in the order of the walk over the map.
    fn find_of_any_type(&self, query: &EventQuery) -> (found: Vec<Event>)
        requires
            self.grouped(),
            query@.event_type is None,
        ensures
            views(found@).to_multiset() == query@.selected(self.accepted()).to_multiset(),
    {
        let all = read_all_buckets(&self.store);
        let ghost accepted = self.accepted@;
        let ghost held = buckets(self.store);
        let ghost types = types_of(all@);
        let mut found: Vec<Event> = Vec::new();
        proof {
            assert(views(found@) =~= Seq::<EventView>::empty());
            lemma_filter_none(accepted, among(types.take(0), query@));
            lemma_empty_to_multiset::<EventView>();
        }
        for entry in walk: all
            invariant
                accepted == self.accepted@,
                held == buckets(self.store),
                self.grouped(),
                types == types_of(all@),
                types.no_duplicates(),
                forall|i: int|
                    0 <= i < all@.len() ==> held.dom().contains(#[trigger] all@[i].0@) && views(
                        all@[i].1@,
                    ) == held[all@[i].0@],
                views(found@).to_multiset() == accepted.filter(
                    among(types.take(walk.index() as int), query@),
                ).to_multiset(),
        {
            let ghost at = walk.index() as int;
            let ghost earlier = views(found@);
            let (_, bucket) = entry;
            keep_admitted(bucket, query, &mut found);
            proof {
                assert(views(bucket@) == of_type(accepted, types[at]));
                vstd::seq_lib::lemma_multiset_commutative(
                    earlier,
                    views(bucket@).filter(query@.admitting()),
                );
                lemma_one_more_bucket(accepted, types, at, query@);
            }
        }
        proof {
            assert(types.take(types.len() as int) =~= types);
            assert forall|i: int| 0 <= i < accepted.len() implies types.contains(
                #[trigger] accepted[i].event_type,
            ) by {
                let event_type = accepted[i].event_type;
                assert(held.dom().contains(event_type));
                let k = choose|k: int| 0 <= k < all@.len() && all@[k].0@ == event_type;
                assert(types[k] == event_type);
            }
            lemma_all_buckets_answer(accepted, types, query@);
        }
        found
    }
}

impl Default for InMemoryEventRepository {
    fn default() -> (repository: InMemoryEventRepository)
        ensures
            repository.wf(),
            repository.retained() == Seq::<EventView>::empty(),
    {
        InMemoryEventRepository::new()
    }
}

impl EventRepository for InMemoryEventRepository {
    open spec fn wf(&self) -> bool {
        self.grouped()
    }

    open spec fn retained(&self) -> Seq<EventView> {
        self.accepted()
    }

    open spec fn retains(&self) -> bool {
        true
    }

    /// Appends the event to the bucket of its type, which is created where
    /// there was none. Always succeeds.
    fn store_event(&mut self, event: Event) -> (r: Result<(), Error>)
        ensures
            r is Ok,
    {
        let ghost before = self.accepted@;
        let ghost held = buckets(self.store);
        let ghost added = event@;
        append_to_bucket(&mut self.store, event);
        self.accepted = Ghost(before.push(added));
        proof {
            let now = buckets(self.store);
            let after = before.push(added);
            assert forall|event_type: Seq<char>| #[trigger]
                now.dom().contains(event_type) implies now[event_type] == of_type(
                after,
                event_type,
            ) by {
                before.lemma_filter_push(added, typed(event_type));
                if event_type == added.event_type && !held.dom().contains(event_type) {
                    assert forall|i: int| 0 <= i < before.len() implies !typed(event_type)(
                        #[trigger] before[i],
                    ) by {
                        assert(held.dom().contains(before[i].event_type));
                    }
                    lemma_filter_none(before, typed(event_type));
                }
            }
            assert forall|i: int| 0 <= i < after.len() implies now.dom().contains(
                #[trigger] after[i].event_type,
            ) by {
                if i < before.len() {
                    assert(held.dom().contains(before[i].event_type));
                }
            }
        }
        Ok(())
    }

    /// Reads the bucket of the query's type, or every bucket where the query
    /// names none, and keeps the events in the query's window. Always
    /// succeeds; for a query that names a type the events come in the order
    /// in which they were stored.
    fn find_events(&self, query: EventQuery) -> (r: Result<Vec<Event>, Error>)
        ensures
            r is Ok,
            query@.event_type is Some ==> views(r->Ok_0@) == query@.selected(self.retained()),
    {
        let found = match &query.event_type {
            Some(event_type) => self.find_of_type(event_type, &query),
            None => self.find_of_any_type(&query),
        };
        Ok(found)
    }
}

/// Creates an in-memory repository.
pub fn create() -> (repository: Result<InMemoryEventRepository, Error>)
    ensures
        repository matches Ok(made) && made.wf() && made.retained() == Seq::<EventView>::empty(),
{
    Ok(InMemoryEventRepository::new())
}

} // verus!

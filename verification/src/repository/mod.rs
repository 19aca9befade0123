//! Repository implementations and the factory that selects one.

mod buckets;
mod laws;
mod memory;
mod noop_repository;

use vstd::prelude::*;

use crate::domain::{
    views, Error, ErrorView, Event, EventQuery, EventRepository, EventView,
};
use crate::text::same_text;

pub use buckets::{bucket_or_empty, buckets, no_buckets};
pub use laws::{
    after_stores, distinct_ids, lemma_bounds_are_inclusive, lemma_filter_count,
    lemma_found_are_the_selected, lemma_nothing_retained_nothing_found,
    lemma_store_keeps_earlier_events, lemma_stored_events_are_found, lemma_stores_append,
    lemma_unknown_type_finds_nothing, lemma_unused_id_keeps_ids_distinct, unused_id,
};
pub use memory::{create as create_memory_repository, InMemoryEventRepository};
pub use noop_repository::{create as create_noop_repository, NoopRepository};

verus! {

/// A repository of one of the kinds that the factory knows.
pub enum Repository {
    /// Events are kept in memory for the life of the process.
    Memory(InMemoryEventRepository),
    /// Events are accepted and dropped.
    Noop(NoopRepository),
}

impl EventRepository for Repository {
    open spec fn wf(&self) -> bool {
        match self {
            Repository::Memory(memory) => memory.wf(),
            Repository::Noop(noop) => noop.wf(),
        }
    }

    open spec fn retained(&self) -> Seq<EventView> {
        match self {
            Repository::Memory(memory) => memory.retained(),
            Repository::Noop(noop) => noop.retained(),
        }
    }

    open spec fn retains(&self) -> bool {
        self is Memory
    }

    /// Hands the event to the repository inside. Always succeeds.
    fn store_event(&mut self, event: Event) -> (r: Result<(), Error>)
        ensures
            r is Ok,
    {
        match self {
            Repository::Memory(memory) => memory.store_event(event),
            Repository::Noop(noop) => noop.store_event(event),
        }
    }

    /// Asks the repository inside. Always succeeds; for a query that names a
    /// type the events come in the order in which they were stored.
    fn find_events(&self, query: EventQuery) -> (r: Result<Vec<Event>, Error>)
        ensures
            r is Ok,
            query@.event_type is Some ==> views(r->Ok_0@) == query@.selected(self.retained()),
    {
        match self {
            Repository::Memory(memory) => memory.find_events(query),
            Repository::Noop(noop) => {
                let r = noop.find_events(query);
                proof {
                    crate::filtering::lemma_filter_none(
                        Seq::<EventView>::empty(),
                        query@.accepting(),
                    );
                    assert(views(r->Ok_0@) =~= Seq::<EventView>::empty());
                }
                r
            },
        }
    }
}

/// What the factory makes of a selector: the in-memory repository for
/// `memory`, the null repository for `noop`, and nothing for any other text.
pub open spec fn selects_memory(kind: Seq<char>) -> bool {
    kind == "memory"@
}

/// The selector of the null repository.
pub open spec fn selects_noop(kind: Seq<char>) -> bool {
    kind == "noop"@
}

/// Creates the repository that the selector names. It holds no events. A
/// selector that names none comes back in the error.
pub fn create_repository(kind: &str) -> (r: Result<Repository, Error>)
    ensures
        selects_memory(kind@) ==> r is Ok && r->Ok_0 is Memory,
        selects_noop(kind@) ==> r is Ok && r->Ok_0 is Noop,
        !selects_memory(kind@) && !selects_noop(kind@) ==> r is Err && r->Err_0@
            == ErrorView::UnknownRepository(kind@),
        r matches Ok(made) ==> made.wf() && made.retained() == Seq::<EventView>::empty(),
{
    proof {
        reveal_strlit("memory");
        reveal_strlit("noop");
        assert("memory"@.len() == 6);
        assert("noop"@.len() == 4);
    }
    if same_text(kind, "memory") {
        match create_memory_repository() {
            Ok(memory) => Ok(Repository::Memory(memory)),
            Err(error) => Err(error),
        }
    } else if same_text(kind, "noop") {
        match create_noop_repository() {
            Ok(noop) => Ok(Repository::Noop(noop)),
            Err(error) => Err(error),
        }
    } else {
        Err(Error::UnknownRepository(kind.to_owned()))
    }
}

} // verus!

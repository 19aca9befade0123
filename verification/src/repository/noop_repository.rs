//! A store that accepts everything and keeps nothing.

use vstd::prelude::*;

use crate::domain::{Error, Event, EventQuery, EventRepository, EventView};
use crate::filtering::{lemma_empty_to_multiset, lemma_filter_none};

verus! {

/// The null store: the HTTP surface exists, and nothing is ever retained.
#[derive(Debug, Default)]
pub struct NoopRepository;

impl EventRepository for NoopRepository {
    open spec fn wf(&self) -> bool {
        true
    }

    open spec fn retained(&self) -> Seq<EventView> {
        Seq::empty()
    }

    open spec fn retains(&self) -> bool {
        false
    }

    /// Succeeds without retaining the event.
    fn store_event(&mut self, event: Event) -> (r: Result<(), Error>)
        ensures
            r is Ok,
    {
        Ok(())
    }

    /// Finds nothing, whatever the query.
    fn find_events(&self, query: EventQuery) -> (r: Result<Vec<Event>, Error>)
        ensures
            r matches Ok(found) && found@.len() == 0,
    {
        let found: Vec<Event> = Vec::new();
        proof {
            lemma_filter_none(Seq::<EventView>::empty(), query@.accepting());
            lemma_empty_to_multiset::<EventView>();
            assert(crate::domain::views(found@) =~= Seq::<EventView>::empty());
        }
        Ok(found)
    }
}

} // verus!

verus! {

/// Creates a null repository.
pub fn create() -> (repository: Result<NoopRepository, Error>)
    ensures
        repository is Ok,
{
    Ok(NoopRepository)
}

} // verus!

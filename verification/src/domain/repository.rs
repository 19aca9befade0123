//! The contract that every store of events meets.

use vstd::prelude::*;

use super::error::Error;
use super::event::{views, Event, EventView};
use super::event_query::{EventQuery, QueryView};

verus! {

/// `found` answers `query` over `retained`: it holds the retained events that
/// pass the filter, each as often as it is retained, and nothing else. The
/// order is left open.
pub open spec fn answers(found: Seq<EventView>, retained: Seq<EventView>, query: QueryView) -> bool {
    found.to_multiset() == query.selected(retained).to_multiset()
}

/// A pluggable store of events.
///
/// What a repository holds is a sequence of events: those it has retained, in
/// the order in which it accepted them. A find answers from that sequence and
/// from nothing else.
pub trait EventRepository {
    /// The repository is in a state that its operations can start from.
    spec fn wf(&self) -> bool;

    /// The events that a find can observe, oldest first.
    spec fn retained(&self) -> Seq<EventView>;

    /// Whether an event that was stored successfully is retained. A null
    /// store accepts every event and retains none.
    spec fn retains(&self) -> bool;

    /// Takes ownership of an event. On success a retaining repository has the
    /// event after all it had before; in every other case what it holds is
    /// what it held. The events that were there are never altered.
    fn store_event(&mut self, event: Event) -> (r: Result<(), Error>)
        requires
            old(self).wf(),
        ensures
            final(self).wf(),
            final(self).retains() == old(self).retains(),
            final(self).retained() == if r is Ok && old(self).retains() {
                old(self).retained().push(event@)
            } else {
                old(self).retained()
            },
            old(self).retained().is_prefix_of(final(self).retained()),
    ;

    /// Returns the retained events that pass the filter, each of them as often
    /// as it is retained, in an order that is not promised. A failure returns
    /// no partial result.
    fn find_events(&self, query: EventQuery) -> (r: Result<Vec<Event>, Error>)
        requires
            self.wf(),
        ensures
            r matches Ok(found) ==> answers(views(found@), self.retained(), query@),
    ;
}

} // verus!

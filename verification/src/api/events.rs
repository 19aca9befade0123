//! `POST /events` and `GET /events`, from decoded request to status and
//! body.

use std::time::Instant;
use vstd::prelude::*;

use super::query::{for_type, parse_query, parsed, GetEventsQuery, ParamsView};
use crate::domain::{
    answers, views, Error, Event, EventRepository, EventView, Metrics, Timestamp,
};
use crate::infrastructure::MetricsSink;
use crate::repository::{lemma_found_are_the_selected, Repository};

verus! {


/// The body of `POST /events`. An identifier that a client sends is not part
/// of it: the server assigns one.
#[derive(Debug)]
pub struct EventInput {
    pub event_type: String,
    pub timestamp: Timestamp,
    pub payload: serde_json::Value,
}

impl EventInput {
    /// The event that this submission becomes under the given identifier.
    pub open spec fn with_id(self, id: u128) -> EventView {
        EventView {
            id,
            event_type: self.event_type@,
            timestamp: self.timestamp,
            payload: self.payload,
        }
    }
}

/// The shared resources of the endpoints.
pub struct AppState {
    pub repo: Repository,
    pub metrics: MetricsSink,
}

/// The status that answers a successful submission.
pub const CREATED: u16 = 201;

/// The status that answers a successful query or scrape.
pub const OK: u16 = 200;

/// The status that answers parameters that are no query.
pub const BAD_REQUEST: u16 = 400;

/// The status that answers a request that the server could not serve.
pub const INTERNAL_SERVER_ERROR: u16 = 500;

/// What the repository holds after a submission under the given identifier:
/// the submitted event after all it held, or, for a repository that retains
/// nothing, what it held.
pub open spec fn after_submission(
    repo: Repository,
    input: EventInput,
    id: u128,
) -> Seq<EventView> {
    if repo.retains() {
        repo.retained().push(input.with_id(id))
    } else {
        repo.retained()
    }
}

/// Stores a submission under the identifier that was drawn for it, counts it,
/// and records the request that began at `start`. Answers 201.
pub fn accept_event(state: &mut AppState, input: EventInput, id: u128, start: Instant) -> (status:
    u16)
    requires
        old(state).repo.wf(),
    ensures
        final(state).repo.wf(),
        final(state).repo.retains() == old(state).repo.retains(),
        final(state).repo.retained() == after_submission(old(state).repo, input, id),
        final(state).metrics == old(state).metrics,
        status == CREATED,
{
    let event = Event {
        id,
        event_type: input.event_type,
        timestamp: input.timestamp,
        payload: input.payload,
    };
    match state.repo.store_event(event) {
        Ok(_) => {
            state.metrics.record_event_created();
            state.metrics.record_http_request(start, "/events", "POST", CREATED);
            CREATED
        },
        Err(_) => {
            state.metrics.record_http_request(start, "/events", "POST", INTERNAL_SERVER_ERROR);
            INTERNAL_SERVER_ERROR
        },
    }
}

/// The identifier is a UUID of version 4 and of the RFC variant: its version
/// bits are `0100` and its variant bits `10`.
pub open spec fn is_version_four(id: u128) -> bool {
    id & 0x0000_0000_0000_f000_c000_0000_0000_0000 == 0x0000_0000_0000_4000_8000_0000_0000_0000
}

/// `uuid::Uuid::new_v4` and `Uuid::as_u128`: a random identifier of version
/// 4. Which one is a matter of chance; its version and variant bits are
/// fixed.
#[verifier::external_body]
fn fresh_id() -> (id: u128)
    ensures
        is_version_four(id),
{
    uuid::Uuid::new_v4().as_u128()
}

/// `POST /events`: assigns the submission a fresh identifier of version 4 and
/// stores it. Answers 201.
pub fn submit_event(state: &mut AppState, input: EventInput) -> (status: u16)
    requires
        old(state).repo.wf(),
    ensures
        final(state).repo.wf(),
        final(state).repo.retains() == old(state).repo.retains(),
        exists|id: u128|
            is_version_four(id) && final(state).repo.retained() == #[trigger] after_submission(
                old(state).repo,
                input,
                id,
            ),
        final(state).metrics == old(state).metrics,
        status == CREATED,
{
    let start = Instant::now();
    let id = fresh_id();
    accept_event(state, input, id, start)
}

/// Round trip: an event that was submitted to a retaining repository is found
/// by the query that its type alone asks for, with the type, instant and
/// payload that were submitted.
pub proof fn lemma_round_trip(repo: Repository, input: EventInput, id: u128, found: Seq<EventView>)
    requires
        repo.retains(),
        answers(found, after_submission(repo, input, id), for_type(input.event_type@)),
    ensures
        parsed(ParamsView { event_type: Some(input.event_type@), start: None, end: None }) is Ok,
        parsed(
            ParamsView { event_type: Some(input.event_type@), start: None, end: None },
        )->Ok_0 == for_type(input.event_type@),
        found.contains(input.with_id(id)),
{
    let retained = after_submission(repo, input, id);
    assert(retained[retained.len() - 1] == input.with_id(id));
    lemma_found_are_the_selected(retained, for_type(input.event_type@), found, input.with_id(id));
}

/// The answer to `GET /events`.
#[derive(Debug)]
pub enum EventsResponse {
    /// 200: the events that the query selects.
    Found(Vec<Event>),
    /// 400: the parameters are no query.
    Rejected(Error),
    /// 500: the repository failed.
    Failed(Error),
}

impl EventsResponse {
    /// The HTTP status of the answer.
    pub open spec fn spec_status(&self) -> u16 {
        match self {
            EventsResponse::Found(_) => OK,
            EventsResponse::Rejected(_) => BAD_REQUEST,
            EventsResponse::Failed(_) => INTERNAL_SERVER_ERROR,
        }
    }

    /// The HTTP status of the answer.
    #[verifier::when_used_as_spec(spec_status)]
    pub fn status(&self) -> (status: u16)
        ensures
            status == self.spec_status(),
    {
        match self {
            EventsResponse::Found(_) => OK,
            EventsResponse::Rejected(_) => BAD_REQUEST,
            EventsResponse::Failed(_) => INTERNAL_SERVER_ERROR,
        }
    }
}

/// `GET /events`: parses the parameters and asks the repository. Parameters
/// that are no query are rejected with the parser's error; otherwise the
/// answer holds the retained events that the query selects, each as often as
/// it is retained, and for a query that names a type in the order in which
/// they were stored.
pub fn get_events(state: &AppState, params: GetEventsQuery) -> (response: EventsResponse)
    requires
        state.repo.wf(),
    ensures
        match parsed(params@) {
            Err(error) => response matches EventsResponse::Rejected(given) && given@ == error,
            Ok(query) => response matches EventsResponse::Found(found) && answers(
                views(found@),
                state.repo.retained(),
                query,
            ) && (query.event_type is Some ==> views(found@) == query.selected(
                state.repo.retained(),
            )),
        },
{
    let start = Instant::now();
    let query = match parse_query(params) {
        Ok(query) => query,
        Err(error) => {
            state.metrics.record_http_request(start, "/events", "GET", BAD_REQUEST);
            return EventsResponse::Rejected(error);
        },
    };
    match state.repo.find_events(query) {
        Ok(events) => {
            state.metrics.record_http_request(start, "/events", "GET", OK);
            EventsResponse::Found(events)
        },
        Err(error) => {
            state.metrics.record_http_request(start, "/events", "GET", INTERNAL_SERVER_ERROR);
            EventsResponse::Failed(error)
        },
    }
}

} // verus!

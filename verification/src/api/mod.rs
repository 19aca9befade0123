//! The HTTP boundary, as far as it decides anything: what each endpoint
//! answers to a decoded request.

mod events;
mod query;
mod scrape;

pub use events::{
    accept_event, after_submission, get_events, is_version_four, lemma_round_trip, submit_event,
    AppState,
    EventInput, EventsResponse, BAD_REQUEST, CREATED, INTERNAL_SERVER_ERROR, OK,
};
pub use query::{
    bound, build_query, for_type, lemma_inverted_window_is_invalid,
    lemma_rejected_parameters_are_invalid, parse_query, parsed, query_of, text_view, yields,
    GetEventsQuery, ParamsView,
};
pub use scrape::{metrics_handler, metrics_response, MetricsResponse, TEXT_PLAIN_UTF8};

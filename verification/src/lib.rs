//! Argus Events: a store of timestamped, type-tagged events and the rules by
//! which it answers queries, with the contracts of every operation proved.
//!
//! The store is the [`EventRepository`]: it retains a sequence of events, a
//! `store_event` appends to it, and a `find_events` returns exactly the
//! retained events that pass an [`EventQuery`]. Around it stand the metrics
//! sink ([`Metrics`]) and what the three HTTP endpoints answer to a decoded
//! request ([`submit_event`], [`get_events`], [`metrics_handler`]).

pub mod api;
pub mod cli;
pub mod domain;
pub mod filtering;
pub mod infrastructure;
pub mod repository;
mod text;

pub use api::{
    accept_event, build_query, get_events, metrics_handler, metrics_response, parse_query,
    submit_event, AppState, EventInput, EventsResponse, GetEventsQuery, MetricsResponse,
};
pub use cli::Args;
pub use domain::{
    parse_timestamp, Error, ErrorKind, ErrorView, Event, EventQuery, EventRepository, EventView,
    Metrics, QueryView, Timestamp,
};
pub use infrastructure::metrics::noop::NoopMetrics;
pub use infrastructure::metrics::prometheus::{
    increment_event_created, init_metrics, render_metrics, settle_install, track_http_request,
    PrometheusMetrics, RecorderSlot,
};
pub use infrastructure::{create_metrics, MetricsSink};
pub use repository::{create_repository, InMemoryEventRepository, NoopRepository, Repository};

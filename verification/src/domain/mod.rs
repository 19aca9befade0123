//! The value types that the rest of the crate passes around.

mod error;
mod event;
mod event_query;
mod metrics;
mod repository;
mod timestamp;

pub use error::{Error, ErrorKind, ErrorView};
pub use event::{views, Event, EventView};
pub use event_query::{of_type, typed, EventQuery, QueryView};
pub use metrics::Metrics;
pub use repository::{answers, EventRepository};
pub use timestamp::{parse_timestamp, rfc3339_reading, Timestamp};

//! What the text backend counts and times.

use std::time::{Duration, Instant};
use vstd::prelude::*;

verus! {

/// The counter of created events.
pub const EVENTS_CREATED_TOTAL: &'static str = "events_created_total";

/// The histogram of request durations, in seconds.
pub const HTTP_REQUEST_DURATION_SECONDS: &'static str = "http_request_duration_seconds";

/// `Instant::elapsed` reads the clock: nothing is known of the duration.
pub assume_specification[ Instant::elapsed ](start: &Instant) -> Duration;

/// The target under which this crate registers its metrics.
pub const METRICS_TARGET: &'static str = "argus_events";

/// The label that carries a request's path.
pub const PATH_LABEL: &'static str = "path";

/// The label that carries a request's method.
pub const METHOD_LABEL: &'static str = "method";

/// The label that carries a response's status.
pub const STATUS_LABEL: &'static str = "status";

/// `metrics::with_recorder`, `Recorder::register_counter` and
/// `Counter::increment`, as the crate's `counter!` macro chains them: adds
/// `by` to the named counter of the recorder that is current, or does nothing
/// where there is none. Nothing is returned.
#[verifier::external_body]
fn add_to_counter(target: &'static str, name: &'static str, by: u64) {
    let key = metrics::Key::from_name(name);
    let metadata = metrics::Metadata::new(target, metrics::Level::INFO, None);
    metrics::with_recorder(|recorder| recorder.register_counter(&key, &metadata)).increment(by);
}

/// `metrics::with_recorder`, `Recorder::register_histogram` and
/// `Histogram::record`, as the crate's `histogram!` macro chains them: records
/// the duration in the named histogram, under the three labels given with
/// their values, of the recorder that is current, or does nothing where there
/// is none. Nothing is returned.
#[verifier::external_body]
fn record_in_histogram(
    target: &'static str,
    name: &'static str,
    path: (&'static str, &str),
    method: (&'static str, &str),
    status: (&'static str, u16),
    elapsed: Duration,
) {
    let labels = vec![
        metrics::Label::new(path.0, path.1.to_string()),
        metrics::Label::new(method.0, method.1.to_string()),
        metrics::Label::new(status.0, status.1.to_string()),
    ];
    let key = metrics::Key::from_parts(name, labels);
    let metadata = metrics::Metadata::new(target, metrics::Level::INFO, None);
    metrics::with_recorder(|recorder| recorder.register_histogram(&key, &metadata)).record(elapsed);
}

/// Increments the counter of created events by one.
pub fn increment_event_created() {
    add_to_counter(METRICS_TARGET, EVENTS_CREATED_TOTAL, 1);
}

/// Records the time since `start` in the histogram of request durations,
/// tagged with the request's path, method and status.
pub fn track_http_request(start: Instant, path: &str, method: &str, status: u16) {
    let elapsed = start.elapsed();
    record_in_histogram(
        METRICS_TARGET,
        HTTP_REQUEST_DURATION_SECONDS,
        (PATH_LABEL, path),
        (METHOD_LABEL, method),
        (STATUS_LABEL, status),
        elapsed,
    );
}

} // verus!

//! The text backend: a sink over the process-wide Prometheus recorder.

mod counters;
mod recorder;

use std::time::Instant;
use vstd::prelude::*;

use crate::domain::{Error, Metrics};

pub use counters::{
    increment_event_created, track_http_request, EVENTS_CREATED_TOTAL,
    HTTP_REQUEST_DURATION_SECONDS, METHOD_LABEL, METRICS_TARGET, PATH_LABEL, STATUS_LABEL,
};
pub use recorder::{
    filled_after, init_metrics, init_outcome, installed_after, lemma_init_is_idempotent,
    render_metrics, report, reported, settle_install, RecorderSlot,
};

verus! {

/// The sink that records into the process-wide recorder and renders it as
/// Prometheus text.
#[derive(Debug)]
pub struct PrometheusMetrics {
    slot: RecorderSlot,
}

impl PrometheusMetrics {
    /// The slot that this sink renders through.
    pub closed spec fn slot(&self) -> RecorderSlot {
        self.slot
    }

    /// A sink over the recorder of the given slot.
    pub fn new(slot: &RecorderSlot) -> (sink: PrometheusMetrics)
        ensures
            sink.slot() == *slot,
    {
        PrometheusMetrics { slot: slot.clone() }
    }
}

impl Metrics for PrometheusMetrics {
    open spec fn ready(&self) -> bool {
        self.slot().installed()
    }

    fn render(&self) -> (r: Result<String, Error>) {
        render_metrics(&self.slot)
    }

    fn record_event_created(&self) {
        increment_event_created();
    }

    fn record_http_request(&self, start: Instant, path: &str, method: &str, status: u16) {
        track_http_request(start, path, method, status);
    }
}

/// Makes sure that the recorder is installed, and creates a sink over it. The
/// sink is ready: its `render` does not fail.
pub fn create(slot: &mut RecorderSlot) -> (sink: Result<PrometheusMetrics, Error>)
    ensures
        old(slot).installed() ==> sink is Ok && *final(slot) == *old(slot),
        sink matches Ok(made) ==> final(slot).installed() && made.slot() == *final(slot),
        sink matches Err(error) ==> error is RecorderInstall && *final(slot) == *old(slot),
{
    match init_metrics(slot) {
        Ok(_) => Ok(PrometheusMetrics::new(slot)),
        Err(error) => Err(error),
    }
}

} // verus!

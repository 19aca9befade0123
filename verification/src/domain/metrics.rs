//! The contract of a metrics sink: counters and latency histograms that are
//! written from the HTTP boundary and read through `render`.

use std::time::Instant;
use vstd::prelude::*;

use super::error::{Error, ErrorView};

verus! {

/// `std::time::Instant`, a reading of the monotonic clock.
#[verifier::external_type_specification]
#[verifier::external_body]
pub struct ExInstant(Instant);

/// `Instant::now` reads the clock: nothing is known of the reading.
pub assume_specification[ Instant::now ]() -> Instant;

/// An application's metrics: counters and histograms.
pub trait Metrics {
    /// Whether a snapshot can be rendered.
    spec fn ready(&self) -> bool;

    /// Renders the current metrics in the Prometheus text format. Fails, with
    /// `NotInitialized`, exactly where the sink is not ready.
    fn render(&self) -> (r: Result<String, Error>)
        ensures
            r is Ok <==> self.ready(),
            r is Err ==> r->Err_0@ == ErrorView::NotInitialized,
    ;

    /// Counts one created event.
    fn record_event_created(&self);

    /// Records how long a request took since `start`, tagged with its path,
    /// method and status.
    fn record_http_request(&self, start: Instant, path: &str, method: &str, status: u16);
}

} // verus!

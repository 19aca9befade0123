//! The sink that records nothing.

use std::time::Instant;
use vstd::prelude::*;

use crate::domain::{Error, Metrics};

verus! {

/// A sink whose record operations do nothing and whose snapshot is empty.
#[derive(Debug, Default)]
pub struct NoopMetrics;

impl Metrics for NoopMetrics {
    open spec fn ready(&self) -> bool {
        true
    }

    /// Returns the empty text.
    fn render(&self) -> (r: Result<String, Error>)
        ensures
            r matches Ok(text) && text@.len() == 0,
    {
        Ok(String::new())
    }

    fn record_event_created(&self) {
    }

    fn record_http_request(&self, start: Instant, path: &str, method: &str, status: u16) {
    }
}

/// Creates the sink that records nothing.
pub fn create() -> (sink: Result<NoopMetrics, Error>)
    ensures
        sink is Ok,
{
    Ok(NoopMetrics)
}

} // verus!

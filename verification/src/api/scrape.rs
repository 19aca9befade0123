//! `GET /metrics`, from the sink's snapshot to status and body.

use vstd::prelude::*;

use super::events::{AppState, INTERNAL_SERVER_ERROR, OK};
use crate::domain::{Error, Metrics};

verus! {

/// The content type of a scrape.
pub const TEXT_PLAIN_UTF8: &'static str = "text/plain; charset=utf-8";

/// The answer to `GET /metrics`.
#[derive(Debug)]
pub struct MetricsResponse {
    pub status: u16,
    pub content_type: &'static str,
    pub body: String,
}

/// The answer to a scrape, given what the sink rendered: the text as plain
/// text with status 200, or status 500 and an empty body for a failure.
pub fn metrics_response(rendered: Result<String, Error>) -> (response: MetricsResponse)
    ensures
        response.content_type == TEXT_PLAIN_UTF8,
        match rendered {
            Ok(text) => response.status == OK && response.body == text,
            Err(_) => response.status == INTERNAL_SERVER_ERROR && response.body@.len() == 0,
        },
{
    match rendered {
        Ok(text) => MetricsResponse { status: OK, content_type: TEXT_PLAIN_UTF8, body: text },
        Err(_) => MetricsResponse {
            status: INTERNAL_SERVER_ERROR,
            content_type: TEXT_PLAIN_UTF8,
            body: String::new(),
        },
    }
}

/// `GET /metrics`: the sink's rendered text as plain text, with status 200;
/// or status 500 and an empty body where the sink is not ready. The null
/// sink renders the empty text.
pub fn metrics_handler(state: &AppState) -> (response: MetricsResponse)
    ensures
        response.content_type == TEXT_PLAIN_UTF8,
        response.status == if state.metrics.ready() {
            OK
        } else {
            INTERNAL_SERVER_ERROR
        },
        !state.metrics.ready() || state.metrics is Noop ==> response.body@.len() == 0,
{
    metrics_response(state.metrics.render())
}

} // verus!

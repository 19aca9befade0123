//! From the URL parameters of `GET /events` to a query.

use vstd::prelude::*;

use crate::domain::{
    parse_timestamp, rfc3339_reading, Error, ErrorKind, ErrorView, EventQuery, QueryView,
    Timestamp,
};

verus! {

/// The URL parameters of `GET /events`, as the client wrote them.
#[derive(Debug)]
pub struct GetEventsQuery {
    /// The parameter `type`.
    pub event_type: Option<String>,
    /// The parameter `start`.
    pub start: Option<String>,
    /// The parameter `end`.
    pub end: Option<String>,
}

/// The URL parameters, each as the sequence of its characters.
pub struct ParamsView {
    pub event_type: Option<Seq<char>>,
    pub start: Option<Seq<char>>,
    pub end: Option<Seq<char>>,
}

/// An optional text as the sequence of its characters.
pub open spec fn text_view(text: Option<String>) -> Option<Seq<char>> {
    match text {
        Some(text) => Some(text@),
        None => None,
    }
}

impl View for GetEventsQuery {
    type V = ParamsView;

    open spec fn view(&self) -> ParamsView {
        ParamsView {
            event_type: text_view(self.event_type),
            start: text_view(self.start),
            end: text_view(self.end),
        }
    }
}

/// The query that names a type and sets no bound.
pub open spec fn for_type(event_type: Seq<char>) -> QueryView {
    QueryView { event_type: Some(event_type), start: None, end: None }
}

/// What a bound parameter asks for: no bound where it is absent, the instant
/// that it denotes where it is an RFC 3339 date-time, and otherwise what the
/// parser says of it.
pub open spec fn bound(text: Option<Seq<char>>) -> Result<Option<Timestamp>, Seq<char>> {
    match text {
        None => Ok(None),
        Some(text) => match rfc3339_reading(text) {
            Ok(at) => Ok(Some(at)),
            Err(complaint) => Err(complaint),
        },
    }
}

/// The query with the given type and bounds, which is invalid where the
/// window is inverted. Equal bounds are in order.
pub open spec fn query_of(
    event_type: Option<Seq<char>>,
    start: Option<Timestamp>,
    end: Option<Timestamp>,
) -> Result<QueryView, ErrorView> {
    let query = QueryView { event_type, start, end };
    if query.ordered() {
        Ok(query)
    } else {
        Err(ErrorView::InvertedRange)
    }
}

/// The query that the URL parameters ask for. The type is taken as it is; a
/// malformed `start` is reported before a malformed `end`, and both before an
/// inverted window.
pub open spec fn parsed(params: ParamsView) -> Result<QueryView, ErrorView> {
    match bound(params.start) {
        Err(complaint) => Err(ErrorView::MalformedStart(complaint)),
        Ok(start) => match bound(params.end) {
            Err(complaint) => Err(ErrorView::MalformedEnd(complaint)),
            Ok(end) => query_of(params.event_type, start, end),
        },
    }
}

/// The result is the expected query, or the expected error.
pub open spec fn yields(
    r: Result<EventQuery, Error>,
    expected: Result<QueryView, ErrorView>,
) -> bool {
    match expected {
        Ok(query) => r is Ok && r->Ok_0@ == query,
        Err(error) => r is Err && r->Err_0@ == error,
    }
}

/// Builds the query with the given type and bounds, and rejects an inverted
/// window with `InvertedRange`.
pub fn build_query(
    event_type: Option<String>,
    start: Option<Timestamp>,
    end: Option<Timestamp>,
) -> (r: Result<EventQuery, Error>)
    ensures
        yields(r, query_of(text_view(event_type), start, end)),
{
    let inverted = match (&start, &end) {
        (Some(start), Some(end)) => !start.not_after(end),
        _ => false,
    };
    if inverted {
        Err(Error::InvertedRange)
    } else {
        Ok(EventQuery { event_type, start, end })
    }
}

/// The bound that was read is the expected one, or the complaint is.
spec fn reads(r: Result<Option<Timestamp>, String>, expected: Result<Option<Timestamp>, Seq<char>>) -> bool {
    match expected {
        Ok(at) => r is Ok && r->Ok_0 == at,
        Err(complaint) => r is Err && r->Err_0@ == complaint,
    }
}

/// Reads a bound parameter.
fn parse_bound(text: &Option<String>) -> (r: Result<Option<Timestamp>, String>)
    ensures
        reads(r, bound(text_view(*text))),
{
    match text {
        None => Ok(None),
        Some(text) => match parse_timestamp(text.as_str()) {
            Ok(at) => Ok(Some(at)),
            Err(error) => Err(error.message()),
        },
    }
}

/// Turns the URL parameters into a query.
pub fn parse_query(params: GetEventsQuery) -> (r: Result<EventQuery, Error>)
    ensures
        yields(r, parsed(params@)),
{
    let start = match parse_bound(&params.start) {
        Ok(start) => start,
        Err(complaint) => {
            return Err(Error::MalformedStart(complaint));
        },
    };
    let end = match parse_bound(&params.end) {
        Ok(end) => end,
        Err(complaint) => {
            return Err(Error::MalformedEnd(complaint));
        },
    };
    build_query(params.event_type, start, end)
}

/// An inverted window is invalid: where both bounds are date-times and
/// `start` lies after `end`, the parameters are rejected with
/// `InvertedRange`, which is of kind `Invalid` and answered with 400.
pub proof fn lemma_inverted_window_is_invalid(params: ParamsView, start: Timestamp, end: Timestamp)
    requires
        bound(params.start) is Ok && bound(params.start)->Ok_0 == Some(start),
        bound(params.end) is Ok && bound(params.end)->Ok_0 == Some(end),
        !start.le(end),
    ensures
        parsed(params) is Err && parsed(params)->Err_0 == ErrorView::InvertedRange,
        ErrorView::InvertedRange.kind() == ErrorKind::Invalid,
        ErrorView::InvertedRange.http_status() == 400,
{
}

/// Parameters that are no query are answered with 400, whatever is wrong
/// with them.
pub proof fn lemma_rejected_parameters_are_invalid(params: ParamsView)
    requires
        parsed(params) is Err,
    ensures
        parsed(params)->Err_0.kind() == ErrorKind::Invalid,
        parsed(params)->Err_0.http_status() == 400,
{
}

} // verus!

//! Instants on the UTC time line, and the one way texts become instants.

use vstd::prelude::*;

use super::error::{Error, ErrorView};

verus! {

/// An instant in UTC: whole seconds since 1970-01-01T00:00:00Z, and the
/// nanoseconds past that second. Within a leap second `nanos` runs on from
/// 1_000_000_000, so that instants order by `secs` first and `nanos` second.
#[derive(Clone, Copy, Debug, PartialEq, Eq, Structural, Hash)]
pub struct Timestamp {
    pub secs: i64,
    pub nanos: u32,
}

impl Timestamp {
    /// `self` is `other` or lies before it.
    pub open spec fn le(self, other: Timestamp) -> bool {
        self.secs < other.secs || (self.secs == other.secs && self.nanos <= other.nanos)
    }

    /// Whether `self` is `other` or lies before it.
    pub fn not_after(&self, other: &Timestamp) -> (r: bool)
        ensures
            r == self.le(*other),
    {
        self.secs < other.secs || (self.secs == other.secs && self.nanos <= other.nanos)
    }

    /// The order of instants is total: reflexive, antisymmetric, transitive,
    /// and any two instants compare.
    pub proof fn lemma_le_total_order(a: Timestamp, b: Timestamp, c: Timestamp)
        ensures
            a.le(a),
            a.le(b) && b.le(a) ==> a == b,
            a.le(b) && b.le(c) ==> a.le(c),
            a.le(b) || b.le(a),
    {
    }
}

/// What reading a text as an RFC 3339 date-time gives: the instant that the
/// text denotes, or, for a text that is no such date-time, what the parser
/// says of it.
pub uninterp spec fn rfc3339_reading(text: Seq<char>) -> Result<Timestamp, Seq<char>>;

/// Calls `chrono::DateTime::parse_from_rfc3339`. A date-time is read off in
/// UTC with `timestamp` and `timestamp_subsec_nanos`; a parse error is turned
/// into its text. The parser is a function of the text alone; the contract
/// names its result and claims nothing else.
#[verifier::external_body]
fn parse_rfc3339(text: &str) -> (r: Result<Timestamp, String>)
    ensures
        match r {
            Ok(at) => rfc3339_reading(text@) is Ok && rfc3339_reading(text@)->Ok_0 == at,
            Err(complaint) => rfc3339_reading(text@) is Err && rfc3339_reading(text@)->Err_0
                == complaint@,
        },
{
    match chrono::DateTime::parse_from_rfc3339(text) {
        Ok(parsed) => {
            let utc = parsed.with_timezone(&chrono::Utc);
            Ok(Timestamp { secs: utc.timestamp(), nanos: utc.timestamp_subsec_nanos() })
        },
        Err(error) => Err(error.to_string()),
    }
}

/// Reads an RFC 3339 date-time. A text that is none is reported with what the
/// parser says of it.
pub fn parse_timestamp(text: &str) -> (r: Result<Timestamp, Error>)
    ensures
        match rfc3339_reading(text@) {
            Ok(at) => r is Ok && r->Ok_0 == at,
            Err(complaint) => r is Err && r->Err_0@ == ErrorView::MalformedTimestamp(complaint),
        },
{
    match parse_rfc3339(text) {
        Ok(at) => Ok(at),
        Err(complaint) => Err(Error::MalformedTimestamp(complaint)),
    }
}

} // verus!

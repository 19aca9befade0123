//! Typed failures. Nothing in this crate logs or panics: every rejection is one
//! of the values below, and each carries what its message names.

use vstd::prelude::*;
use vstd::string::StringExecFns;

verus! {

/// The three kinds of failure that callers tell apart.
#[derive(Clone, Copy, Debug, PartialEq, Eq, Structural)]
pub enum ErrorKind {
    /// The input cannot be interpreted.
    Invalid,
    /// A store or recorder could not complete an operation.
    Backend,
    /// Metrics were asked for before a recorder was installed.
    NotInitialized,
}

/// Every failure this crate reports.
#[derive(Debug, PartialEq, Eq)]
pub enum Error {
    /// The repository selector, which names no known backend.
    UnknownRepository(String),
    /// The metrics setting, which names no known backend.
    UnknownMetricsType(String),
    /// A text is not an RFC 3339 date-time; what the parser says of it.
    MalformedTimestamp(String),
    /// The `start` parameter of a query is not an RFC 3339 date-time; what
    /// the parser says of it.
    MalformedStart(String),
    /// The `end` parameter of a query is not an RFC 3339 date-time; what the
    /// parser says of it.
    MalformedEnd(String),
    /// Both bounds of a query are set and `start` lies after `end`.
    InvertedRange,
    /// A repository could not complete a store or a find.
    Backend,
    /// The process-wide recorder could not be installed; what the installer
    /// says of it.
    RecorderInstall(String),
    /// Metrics were rendered before the recorder was installed.
    NotInitialized,
}

/// A failure, apart from how its text is held in memory.
pub enum ErrorView {
    UnknownRepository(Seq<char>),
    UnknownMetricsType(Seq<char>),
    MalformedTimestamp(Seq<char>),
    MalformedStart(Seq<char>),
    MalformedEnd(Seq<char>),
    InvertedRange,
    Backend,
    RecorderInstall(Seq<char>),
    NotInitialized,
}

impl View for Error {
    type V = ErrorView;

    open spec fn view(&self) -> ErrorView {
        match self {
            Error::UnknownRepository(kind) => ErrorView::UnknownRepository(kind@),
            Error::UnknownMetricsType(setting) => ErrorView::UnknownMetricsType(setting@),
            Error::MalformedTimestamp(complaint) => ErrorView::MalformedTimestamp(complaint@),
            Error::MalformedStart(complaint) => ErrorView::MalformedStart(complaint@),
            Error::MalformedEnd(complaint) => ErrorView::MalformedEnd(complaint@),
            Error::InvertedRange => ErrorView::InvertedRange,
            Error::Backend => ErrorView::Backend,
            Error::RecorderInstall(complaint) => ErrorView::RecorderInstall(complaint@),
            Error::NotInitialized => ErrorView::NotInitialized,
        }
    }
}

impl ErrorView {
    /// The kind that this failure belongs to.
    pub open spec fn kind(self) -> ErrorKind {
        match self {
            ErrorView::UnknownRepository(_) => ErrorKind::Invalid,
            ErrorView::UnknownMetricsType(_) => ErrorKind::Invalid,
            ErrorView::MalformedTimestamp(_) => ErrorKind::Invalid,
            ErrorView::MalformedStart(_) => ErrorKind::Invalid,
            ErrorView::MalformedEnd(_) => ErrorKind::Invalid,
            ErrorView::InvertedRange => ErrorKind::Invalid,
            ErrorView::Backend => ErrorKind::Backend,
            ErrorView::RecorderInstall(_) => ErrorKind::Backend,
            ErrorView::NotInitialized => ErrorKind::NotInitialized,
        }
    }

    /// The HTTP status that answers this failure: 400 for what the client got
    /// wrong, 500 for what the server could not do.
    pub open spec fn http_status(self) -> u16 {
        match self.kind() {
            ErrorKind::Invalid => 400,
            ErrorKind::Backend => 500,
            ErrorKind::NotInitialized => 500,
        }
    }

    /// The text that reports this failure.
    pub open spec fn message(self) -> Seq<char> {
        match self {
            ErrorView::UnknownRepository(kind) => "Unknown repository type: '"@ + kind + "'"@,
            ErrorView::UnknownMetricsType(setting) => "Invalid value for ARGUS_METRICS_TYPE: "@
                + setting,
            ErrorView::MalformedTimestamp(complaint) => complaint,
            ErrorView::MalformedStart(complaint) => complaint,
            ErrorView::MalformedEnd(complaint) => complaint,
            ErrorView::InvertedRange => "start must not be after end"@,
            ErrorView::Backend => "The repository could not complete the operation"@,
            ErrorView::RecorderInstall(complaint) => "Failed to install Prometheus recorder: "@
                + complaint,
            ErrorView::NotInitialized =>
                "Metrics recorder not initialized. Call init_metrics() first."@,
        }
    }
}

impl Clone for Error {
    fn clone(&self) -> (copy: Error)
        ensures
            copy@ == self@,
    {
        match self {
            Error::UnknownRepository(kind) => Error::UnknownRepository(kind.clone()),
            Error::UnknownMetricsType(setting) => Error::UnknownMetricsType(setting.clone()),
            Error::MalformedTimestamp(complaint) => Error::MalformedTimestamp(complaint.clone()),
            Error::MalformedStart(complaint) => Error::MalformedStart(complaint.clone()),
            Error::MalformedEnd(complaint) => Error::MalformedEnd(complaint.clone()),
            Error::InvertedRange => Error::InvertedRange,
            Error::Backend => Error::Backend,
            Error::RecorderInstall(complaint) => Error::RecorderInstall(complaint.clone()),
            Error::NotInitialized => Error::NotInitialized,
        }
    }
}

impl Error {
    /// The kind that this failure belongs to.
    pub fn kind(&self) -> (kind: ErrorKind)
        ensures
            kind == self@.kind(),
    {
        match self {
            Error::UnknownRepository(_) => ErrorKind::Invalid,
            Error::UnknownMetricsType(_) => ErrorKind::Invalid,
            Error::MalformedTimestamp(_) => ErrorKind::Invalid,
            Error::MalformedStart(_) => ErrorKind::Invalid,
            Error::MalformedEnd(_) => ErrorKind::Invalid,
            Error::InvertedRange => ErrorKind::Invalid,
            Error::Backend => ErrorKind::Backend,
            Error::RecorderInstall(_) => ErrorKind::Backend,
            Error::NotInitialized => ErrorKind::NotInitialized,
        }
    }

    /// The HTTP status that answers this failure.
    pub fn http_status(&self) -> (status: u16)
        ensures
            status == self@.http_status(),
    {
        match self.kind() {
            ErrorKind::Invalid => 400,
            ErrorKind::Backend => 500,
            ErrorKind::NotInitialized => 500,
        }
    }

    /// The text that reports this failure. It names the value that was
    /// refused, or repeats what the parser or the installer said.
    pub fn message(&self) -> (text: String)
        ensures
            text@ == self@.message(),
    {
        match self {
            Error::UnknownRepository(kind) => {
                let mut text = String::from_str("Unknown repository type: '");
                text.append(kind.as_str());
                text.append("'");
                text
            },
            Error::UnknownMetricsType(setting) => {
                let mut text = String::from_str("Invalid value for ARGUS_METRICS_TYPE: ");
                text.append(setting.as_str());
                text
            },
            Error::MalformedTimestamp(complaint) => complaint.clone(),
            Error::MalformedStart(complaint) => complaint.clone(),
            Error::MalformedEnd(complaint) => complaint.clone(),
            Error::InvertedRange => String::from_str("start must not be after end"),
            Error::Backend => String::from_str("The repository could not complete the operation"),
            Error::RecorderInstall(complaint) => {
                let mut text = String::from_str("Failed to install Prometheus recorder: ");
                text.append(complaint.as_str());
                text
            },
            Error::NotInitialized => String::from_str(
                "Metrics recorder not initialized. Call init_metrics() first.",
            ),
        }
    }
}

} // verus!

//! The options of the server.

use vstd::prelude::*;

verus! {

/// Command-line options for configuring the server.
#[derive(Debug)]
pub struct Args {
    /// Address to bind to, as `host:port`.
    pub endpoint: String,
    /// Storage backend to use: `memory` or `noop`.
    pub repository: String,
}

/// The address that the server binds where none is given.
pub const DEFAULT_ENDPOINT: &'static str = "0.0.0.0:3000";

/// The storage backend that the server uses where none is given.
pub const DEFAULT_REPOSITORY: &'static str = "memory";

impl Default for Args {
    /// The options of a server that was started without any.
    fn default() -> (args: Args)
        ensures
            args.endpoint@ == DEFAULT_ENDPOINT@,
            args.repository@ == DEFAULT_REPOSITORY@,
    {
        Args { endpoint: DEFAULT_ENDPOINT.to_owned(), repository: DEFAULT_REPOSITORY.to_owned() }
    }
}

} // verus!

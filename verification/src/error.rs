//! The library's error kinds.

use vstd::prelude::*;

verus! {

/// What can go wrong around the relay.
///
/// `ConnectionError`: the upstream server was unreachable or the
/// transport handshake failed; fatal at startup, a terminal stream
/// error for a relay task.
/// `UpstreamError`: upstream answered a call with an error; forwarded
/// to the client, and for the relay delivered as a terminal stream
/// error rather than a silently truncated stream.
/// `Unimplemented`: a known-unsupported operation, rejected at once.
/// `ConfigurationError`: malformed startup configuration; the process
/// does not start.
#[derive(Clone, Copy, Debug, PartialEq, Eq, Structural)]
pub enum Error {
    ConnectionError,
    UpstreamError,
    Unimplemented,
    ConfigurationError,
}

impl Error {
    /// A short human-readable name for the error kind.
    pub fn describe(&self) -> (r: &'static str)
        ensures
            (*self is ConnectionError) ==> r@ == "upstream connection failed"@,
            (*self is UpstreamError) ==> r@ == "upstream returned an error"@,
            (*self is Unimplemented) ==> r@ == "operation is not implemented"@,
            (*self is ConfigurationError) ==> r@ == "malformed configuration"@,
    {
        match self {
            Error::ConnectionError => "upstream connection failed",
            Error::UpstreamError => "upstream returned an error",
            Error::Unimplemented => "operation is not implemented",
            Error::ConfigurationError => "malformed configuration",
        }
    }
}

} // verus!

//! The connector's transport decision.
//!
//! Opening an upstream connection is I/O and lives with the driver; the
//! one decision it takes — whether the address calls for encrypted
//! transport, and hence for validating the upstream certificate against
//! the embedded trust anchor — is taken here.

use vstd::prelude::*;
use vstd::string::StrSliceExecFns;

verus! {

/// An address calls for encrypted transport when it begins with the
/// scheme prefix `https`.
pub open spec fn spec_wants_tls(url: Seq<char>) -> bool {
    url.len() >= 5 && url[0] == 'h' && url[1] == 't' && url[2] == 't' && url[3] == 'p' && url[4]
        == 's'
}

/// Whether the upstream address calls for encrypted transport.
pub fn wants_tls(url: &str) -> (r: bool)
    ensures
        r == spec_wants_tls(url@),
{
    let n = url.unicode_len();
    if n < 5 {
        return false;
    }
    url.get_char(0) == 'h' && url.get_char(1) == 't' && url.get_char(2) == 't' && url.get_char(3)
        == 'p' && url.get_char(4) == 's'
}

} // verus!

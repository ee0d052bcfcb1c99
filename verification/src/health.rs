//! The health endpoint.

use vstd::prelude::*;

verus! {

/// The path under which the health endpoint answers.
pub const HEALTH_PATH: &'static str = "/api/health";

/// The body of every health response.
pub const HEALTH_BODY: &'static str = "OK";

/// Handles a health request. It looks at nothing of the request and always
/// answers with the two characters `OK`.
pub fn health_check() -> (body: &'static str)
    ensures
        body@ == HEALTH_BODY@,
        body@ == seq!['O', 'K'],
{
    proof {
        reveal_strlit("OK");
    }
    HEALTH_BODY
}

} // verus!

//! Read-side queries over issued tokens.

use vstd::prelude::*;
use crate::strutil::concat_str;

verus! {

/// A human-readable description of a session's token.
pub fn query_token_details(session_id: &str) -> (r: String)
    ensures
        r@ == "Token details for session_id: "@ + session_id@,
{
    concat_str("Token details for session_id: ", session_id)
}

} // verus!

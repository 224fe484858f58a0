//! The placeholder vote endpoint.
use vstd::prelude::*;

verus! {

/// The path the vote endpoint is served on.
pub const VOTE_ROUTE: &'static str = "/v1/vote";

/// Processes a vote, answering with the id it was recorded under.
pub fn process_vote() -> (r: String)
    ensures
        r@ == "id-1"@,
{
    String::from_str("id-1")
}

/// The vote endpoint's answer: the processed vote's id.
pub fn vote() -> (r: String)
    ensures
        r@ == "id-1"@,
{
    process_vote()
}

} // verus!

//! Errors related to user voting.
use vstd::prelude::*;

verus! {

/// Errors that can occur when a user votes.
#[derive(Clone, Debug)]
pub enum UserError {
    /// A record could not be created for the user
    FailedToCreateUserRecord,
    /// We were unable to delete a user with the given instance ID
    FailedToDeleteUserRecord,
    /// We could not get a vote by a given user
    FailedToGetUserVote,
    /// The user was unable to cast a vote
    FailedToCastVote,
    /// An error that occurred in category updating; the database's message
    CategoryDBError(String),
    /// An error that occurred while trying to pull data from snapcraft.io; its message
    SnapcraftIo(String),
    /// An error that occurred while trying to convert JSON data; its message
    Json(String),
    /// Anything else that can go wrong
    Unknown,
}

} // verus!

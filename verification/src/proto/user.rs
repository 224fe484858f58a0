//! Messages of the user service.
use vstd::prelude::*;
use crate::features::pb::common::Timestamp;

verus! {

/// One vote of the calling user, with the snap's name, as sent to clients.
pub struct Vote {
    pub snap_id: String,
    pub snap_revision: i32,
    pub vote_up: bool,
    pub timestamp: Option<Timestamp>,
    pub snap_name: String,
}

/// The reply to an authentication: a token for the user.
pub struct AuthenticateResponse {
    pub token: String,
}

/// The reply to a request for the caller's votes on a snap.
pub struct GetSnapVotesResponse {
    pub votes: Vec<Vote>,
}

} // verus!

//! Users and their votes.
use vstd::prelude::*;
use crate::features::pb::common::Timestamp;
use crate::features::pb::user as pb;
use crate::utils::clock::{now_utc, EARLIEST_SECONDS, LATEST_SECONDS};

verus! {

/// The hash that identifies a client.
pub type ClientHash = String;

/// A user of the ratings service, known by its client hash.
#[derive(Clone, Debug)]
pub struct User {
    pub id: i32,
    pub client_hash: ClientHash,
    pub created: Timestamp,
    pub last_seen: Timestamp,
}

impl User {
    /// A user not yet stored (its id is -1), created and last seen now.
    pub fn new(client_hash: &str) -> (r: Self)
        ensures
            r.id == -1,
            r.client_hash@ == client_hash@,
            r.created == r.last_seen,
            EARLIEST_SECONDS <= r.created.seconds <= LATEST_SECONDS,
            0 <= r.created.nanos < 1_000_000_000,
    {
        let now = now_utc();
        User { id: -1, client_hash: String::from_str(client_hash), last_seen: now, created: now }
    }
}

/// A user's vote on one revision of a snap.
#[derive(Clone, Debug)]
pub struct Vote {
    pub client_hash: ClientHash,
    pub snap_id: String,
    pub snap_revision: u32,
    pub vote_up: bool,
    pub timestamp: Timestamp,
}

impl Vote {
    /// Converts this into its protobuf version: the revision as a signed number, and the
    /// time to the whole second.
    pub fn into_dto(self) -> (r: pb::Vote)
        ensures
            r.snap_id@ == self.snap_id@,
            r.snap_revision == self.snap_revision as i32,
            r.vote_up == self.vote_up,
            r.timestamp == Some(Timestamp { seconds: self.timestamp.seconds, nanos: 0 }),
    {
        let timestamp = Some(Timestamp { seconds: self.timestamp.seconds, nanos: 0 });
        pb::Vote {
            snap_id: self.snap_id,
            snap_revision: self.snap_revision as i32,
            vote_up: self.vote_up,
            timestamp,
        }
    }
}

} // verus!

//! Messages shared by several services.
use vstd::prelude::*;
use crate::features::pb::chart::RawRating;

verus! {

/// An aggregated rating for a snap, with the snap's name, as sent to clients.
pub struct Rating {
    pub snap_id: String,
    pub total_votes: u64,
    pub ratings_band: i32,
    pub snap_name: String,
}

/// One entry of a chart, as sent to clients.
pub struct ChartData {
    pub raw_rating: RawRating,
    pub rating: Option<Rating>,
}

} // verus!

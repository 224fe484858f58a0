//! Messages of the app service.
use vstd::prelude::*;
use crate::proto::common::{ChartData, Rating};

verus! {

/// The reply to a request for one snap's rating.
pub struct GetRatingResponse {
    pub rating: Option<Rating>,
}

/// The reply to a request for many snaps' ratings.
pub struct GetBulkRatingsResponse {
    pub ratings: Vec<ChartData>,
}

} // verus!

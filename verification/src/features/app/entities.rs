//! Ratings computed from a snap's individual votes.
use vstd::prelude::*;
use crate::features::common::entities as common;
use crate::features::common::entities::{
    band_for_counts, INSUFFICIENT_VOTES_QUANTITY, GOOD_UPPER, NEUTRAL_UPPER, POOR_UPPER,
    VERY_POOR_UPPER,
};
use crate::features::common::lower_bound::lower_bound_exceeds_counts;
use crate::features::pb::common as pb;

verus! {

/// How good a snap is, as judged from its votes.
#[derive(Clone, Copy, Debug, PartialEq, Eq, Structural)]
pub enum RatingsBand {
    VeryGood,
    Good,
    Neutral,
    Poor,
    VeryPoor,
    InsufficientVotes,
}

/// The band of this feature that a common band stands for.
pub open spec fn from_common(band: common::RatingsBand) -> RatingsBand {
    match band {
        common::RatingsBand::VeryGood => RatingsBand::VeryGood,
        common::RatingsBand::Good => RatingsBand::Good,
        common::RatingsBand::Neutral => RatingsBand::Neutral,
        common::RatingsBand::Poor => RatingsBand::Poor,
        common::RatingsBand::VeryPoor => RatingsBand::VeryPoor,
        common::RatingsBand::InsufficientVotes => RatingsBand::InsufficientVotes,
    }
}

/// The wire number of a band.
pub open spec fn band_number(band: RatingsBand) -> i32 {
    match band {
        RatingsBand::VeryGood => 0,
        RatingsBand::Good => 1,
        RatingsBand::Neutral => 2,
        RatingsBand::Poor => 3,
        RatingsBand::VeryPoor => 4,
        RatingsBand::InsufficientVotes => 5,
    }
}

/// A band computed from votes goes on the wire as the protocol's number for the same band
/// of the common ratings: 0 for `VeryGood` up to 4 for `VeryPoor`, and 5 without enough
/// votes.
pub proof fn lemma_band_number_matches_protocol(band: common::RatingsBand)
    ensures
        band_number(from_common(band)) == pb::band_number(common::band_to_pb(band)),
        from_common(band) == RatingsBand::VeryGood ==> band_number(from_common(band)) == 0,
        from_common(band) == RatingsBand::VeryPoor ==> band_number(from_common(band)) == 4,
        from_common(band) == RatingsBand::InsufficientVotes ==> band_number(from_common(band)) == 5,
{
    common::lemma_wire_band_numbers(band, band);
}

/// One vote: up or down.
#[derive(Clone, Debug)]
pub struct Vote {
    pub vote_up: bool,
}

/// How many of the votes are up.
pub open spec fn count_up(votes: Seq<Vote>) -> nat
    decreases votes.len(),
{
    if votes.len() == 0 {
        0
    } else {
        count_up(votes.drop_last()) + if votes.last().vote_up { 1nat } else { 0nat }
    }
}

proof fn lemma_count_up_bounded(votes: Seq<Vote>)
    ensures
        count_up(votes) <= votes.len(),
    decreases votes.len(),
{
    if votes.len() > 0 {
        lemma_count_up_bounded(votes.drop_last());
    }
}

/// The band of a list of votes: `InsufficientVotes` below the minimum number of votes,
/// else the band of the Wilson score lower bound of the share of up votes.
pub fn calculate_band(votes: Vec<Vote>) -> (r: RatingsBand)
    ensures
        r == from_common(band_for_counts(count_up(votes@) as int, votes@.len() as int)),
{
    let total_ratings = votes.len();
    if total_ratings < 25 {
        return RatingsBand::InsufficientVotes;
    }
    let mut positive_ratings: usize = 0;
    let mut i: usize = 0;
    while i < total_ratings
        invariant
            total_ratings == votes@.len(),
            i <= total_ratings,
            positive_ratings == count_up(votes@.take(i as int)),
            positive_ratings <= i,
        decreases total_ratings - i,
    {
        assert(votes@.take(i + 1).drop_last() =~= votes@.take(i as int));
        if votes[i].vote_up {
            positive_ratings = positive_ratings + 1;
        }
        i = i + 1;
    }
    assert(votes@.take(total_ratings as int) =~= votes@);
    assert(INSUFFICIENT_VOTES_QUANTITY == 25);
    let k = positive_ratings as u64;
    let n = total_ratings as u64;
    if lower_bound_exceeds_counts(k, n, GOOD_UPPER) {
        RatingsBand::VeryGood
    } else if lower_bound_exceeds_counts(k, n, NEUTRAL_UPPER) {
        RatingsBand::Good
    } else if lower_bound_exceeds_counts(k, n, POOR_UPPER) {
        RatingsBand::Neutral
    } else if lower_bound_exceeds_counts(k, n, VERY_POOR_UPPER) {
        RatingsBand::Poor
    } else {
        RatingsBand::VeryPoor
    }
}

impl RatingsBand {
    /// The wire number of this band.
    pub fn to_i32(self) -> (r: i32)
        ensures
            r == band_number(self),
    {
        match self {
            RatingsBand::VeryGood => 0,
            RatingsBand::Good => 1,
            RatingsBand::Neutral => 2,
            RatingsBand::Poor => 3,
            RatingsBand::VeryPoor => 4,
            RatingsBand::InsufficientVotes => 5,
        }
    }
}

/// A snap's rating: its votes counted and banded.
#[derive(Clone, Debug)]
pub struct Rating {
    pub snap_id: String,
    pub total_votes: u64,
    pub ratings_band: RatingsBand,
}

impl Rating {
    /// Rates the snap `snap_id` from all of its votes.
    pub fn new(snap_id: String, votes: Vec<Vote>) -> (r: Self)
        ensures
            r.snap_id@ == snap_id@,
            r.total_votes == votes@.len(),
            r.ratings_band == from_common(band_for_counts(count_up(votes@) as int, votes@.len() as int)),
    {
        let total_votes = votes.len();
        let ratings_band = calculate_band(votes);
        Rating { snap_id, total_votes: total_votes as u64, ratings_band }
    }

    /// Converts this into its protobuf version for wire transfer.
    pub fn into_dto(self) -> (r: pb::Rating)
        ensures
            r.snap_id@ == self.snap_id@,
            r.total_votes == self.total_votes,
            r.ratings_band == band_number(self.ratings_band),
    {
        pb::Rating { snap_id: self.snap_id, total_votes: self.total_votes, ratings_band: self.ratings_band.to_i32() }
    }
}

} // verus!

//! Common definitions used throughout the ratings service.
use vstd::prelude::*;
use crate::features::common::band_order::band_rank;
use crate::features::common::lower_bound::{
    lower_bound_exceeds, lower_bound_exceeds_signed, lemma_lower_bound_below_ratio,
    lemma_lower_bound_exceeds_smaller, lemma_lower_bound_monotonic, lemma_no_positive_exceeds_nothing,
    lemma_unanimous_exceeds_eighty, lemma_lower_bound_above_monotonic, lower_bound_above,
};
use crate::features::pb::common as pb;

verus! {

/// An arbitrary fixed number of votes we've determined is below the threshold to be meaningful.
pub const INSUFFICIENT_VOTES_QUANTITY: i64 = 25;

/// The percentage of votes that denotes an upper bound between good and very good.
pub const GOOD_UPPER: u64 = 80;
/// The percentage of votes that denotes the line between neutral and good.
pub const NEUTRAL_UPPER: u64 = 55;
/// The percentage of votes that denotes the line between poor and neutral.
pub const POOR_UPPER: u64 = 45;
/// The percentage of votes that denotes a line between poor and very poor.
pub const VERY_POOR_UPPER: u64 = 20;

/// A descriptive mapping of a number of ratings to a general indicator of "how good"
/// an app can be said to be.
#[derive(Clone, Copy, Debug, PartialEq, Eq, Structural)]
pub enum RatingsBand {
    VeryGood,
    Good,
    Neutral,
    Poor,
    VeryPoor,
    InsufficientVotes,
}

impl Default for RatingsBand {
    fn default() -> (r: Self)
        ensures
            r == RatingsBand::InsufficientVotes,
    {
        RatingsBand::InsufficientVotes
    }
}

/// The band of a snap with `positive` of `total` votes positive: too few votes give
/// `InsufficientVotes`; otherwise the band is the one whose lower threshold the Wilson
/// score lower bound lies strictly above, and `VeryPoor` when it lies above none.
pub open spec fn band_for_counts(positive: int, total: int) -> RatingsBand {
    if total < INSUFFICIENT_VOTES_QUANTITY {
        RatingsBand::InsufficientVotes
    } else if lower_bound_exceeds(positive, total, GOOD_UPPER as int) {
        RatingsBand::VeryGood
    } else if lower_bound_exceeds(positive, total, NEUTRAL_UPPER as int) {
        RatingsBand::Good
    } else if lower_bound_exceeds(positive, total, POOR_UPPER as int) {
        RatingsBand::Neutral
    } else if lower_bound_exceeds(positive, total, VERY_POOR_UPPER as int) {
        RatingsBand::Poor
    } else {
        RatingsBand::VeryPoor
    }
}

/// The wire form of a band.
pub open spec fn band_to_pb(band: RatingsBand) -> pb::RatingsBand {
    match band {
        RatingsBand::VeryGood => pb::RatingsBand::VeryGood,
        RatingsBand::Good => pb::RatingsBand::Good,
        RatingsBand::Neutral => pb::RatingsBand::Neutral,
        RatingsBand::Poor => pb::RatingsBand::Poor,
        RatingsBand::VeryPoor => pb::RatingsBand::VeryPoor,
        RatingsBand::InsufficientVotes => pb::RatingsBand::InsufficientVotes,
    }
}

impl RatingsBand {
    /// The band of an adjusted ratio, given whether it lies above each threshold in turn.
    /// Only `band_for_counts` calls it, with `total` at or above the minimum.
    fn from_counts(positive: i64, total: i64) -> (r: RatingsBand)
        requires
            total >= INSUFFICIENT_VOTES_QUANTITY,
        ensures
            r == band_for_counts(positive as int, total as int),
    {
        if lower_bound_exceeds_signed(positive, total, GOOD_UPPER) {
            RatingsBand::VeryGood
        } else if lower_bound_exceeds_signed(positive, total, NEUTRAL_UPPER) {
            RatingsBand::Good
        } else if lower_bound_exceeds_signed(positive, total, POOR_UPPER) {
            RatingsBand::Neutral
        } else if lower_bound_exceeds_signed(positive, total, VERY_POOR_UPPER) {
            RatingsBand::Poor
        } else {
            RatingsBand::VeryPoor
        }
    }

    /// The wire form of this band.
    pub fn to_pb(self) -> (r: pb::RatingsBand)
        ensures
            r == band_to_pb(self),
    {
        match self {
            RatingsBand::VeryGood => pb::RatingsBand::VeryGood,
            RatingsBand::Good => pb::RatingsBand::Good,
            RatingsBand::Neutral => pb::RatingsBand::Neutral,
            RatingsBand::Poor => pb::RatingsBand::Poor,
            RatingsBand::VeryPoor => pb::RatingsBand::VeryPoor,
            RatingsBand::InsufficientVotes => pb::RatingsBand::InsufficientVotes,
        }
    }

    /// The band a wire band stands for.
    pub fn from_pb(value: pb::RatingsBand) -> (r: RatingsBand)
        ensures
            band_to_pb(r) == value,
    {
        match value {
            pb::RatingsBand::VeryGood => RatingsBand::VeryGood,
            pb::RatingsBand::Good => RatingsBand::Good,
            pb::RatingsBand::Neutral => RatingsBand::Neutral,
            pb::RatingsBand::Poor => RatingsBand::Poor,
            pb::RatingsBand::VeryPoor => RatingsBand::VeryPoor,
            pb::RatingsBand::InsufficientVotes => RatingsBand::InsufficientVotes,
        }
    }
}

/// The exact lower bound of the Wilson score confidence interval of a snap's votes: the
/// adjusted ratio that ranks and bands it. It is kept as the counts it is computed from,
/// and compared with thresholds exactly.
#[derive(Clone, Copy, Debug)]
pub struct AdjustedRatio {
    positive: i64,
    total: i64,
}

impl AdjustedRatio {
    /// The positive and total vote counts that this ratio is the lower bound for.
    pub closed spec fn counts(self) -> (int, int) {
        (self.positive as int, self.total as int)
    }

    #[verifier::type_invariant]
    closed spec fn inv(self) -> bool {
        self.total >= INSUFFICIENT_VOTES_QUANTITY
    }

    /// The number of positive votes.
    pub fn positive_votes(&self) -> (r: i64)
        ensures
            r == self.counts().0,
    {
        self.positive
    }

    /// The total number of votes.
    pub fn total_votes(&self) -> (r: i64)
        ensures
            r == self.counts().1,
            r >= INSUFFICIENT_VOTES_QUANTITY,
    {
        proof {
            use_type_invariant(self);
        }
        self.total
    }

    /// Whether this adjusted ratio lies strictly above `percent / 100`.
    pub fn exceeds_percent(&self, percent: u64) -> (r: bool)
        requires
            percent <= 100,
        ensures
            r == lower_bound_exceeds(self.counts().0, self.counts().1, percent as int),
    {
        proof {
            use_type_invariant(self);
        }
        lower_bound_exceeds_signed(self.positive, self.total, percent)
    }
}

/// A descriptive rating object, usually used converted and transferred over the wire.
/// This is an aggregated rating for a snap without holding every raw value, as determined
/// by [`RatingsBand`].
#[derive(Clone, Debug)]
pub struct Rating {
    /// The ID of the snap this rating is for
    pub snap_id: String,
    /// The total votes for this snap
    pub total_votes: u64,
    /// The descriptive indicator of "how good" this snap is based
    /// on aggregated ratings.
    pub ratings_band: RatingsBand,
}

impl Default for Rating {
    fn default() -> (r: Self)
        ensures
            r.snap_id@ == Seq::<char>::empty(),
            r.total_votes == 0,
            r.ratings_band == RatingsBand::InsufficientVotes,
    {
        Rating { snap_id: String::new(), total_votes: 0, ratings_band: RatingsBand::InsufficientVotes }
    }
}

/// A summary of votes for a given snap, this is then aggregated before transfer.
#[derive(Clone, Debug)]
pub struct VoteSummary {
    /// The ID of the snap being checked.
    pub snap_id: String,
    /// The total votes this snap has received.
    pub total_votes: i64,
    /// The number of the votes which are positive.
    pub positive_votes: i64,
}

/// Converts a given [`VoteSummary`] into a [`RatingsBand`], if applicable, along with the
/// adjusted ratio (the lower bound of the confidence interval) when there are enough votes.
pub fn calculate_band(votes: &VoteSummary) -> (r: (Option<AdjustedRatio>, RatingsBand))
    ensures
        r.1 == band_for_counts(votes.positive_votes as int, votes.total_votes as int),
        r.0 is None <==> votes.total_votes < INSUFFICIENT_VOTES_QUANTITY,
        r.0 matches Some(ratio) ==> ratio.counts() == (votes.positive_votes as int, votes.total_votes as int),
{
    if votes.total_votes < INSUFFICIENT_VOTES_QUANTITY {
        return (None, RatingsBand::InsufficientVotes);
    }
    let adjusted_ratio = AdjustedRatio { positive: votes.positive_votes, total: votes.total_votes };
    (Some(adjusted_ratio), RatingsBand::from_counts(votes.positive_votes, votes.total_votes))
}

impl Rating {
    /// Creates a new [`Rating`] based on a given [`VoteSummary`], by calculating
    /// the required [`RatingsBand`].
    pub fn new(votes: VoteSummary) -> (r: Self)
        ensures
            r.snap_id@ == votes.snap_id@,
            r.total_votes == votes.total_votes as u64,
            r.ratings_band == band_for_counts(votes.positive_votes as int, votes.total_votes as int),
    {
        let (_, ratings_band) = calculate_band(&votes);
        Rating { snap_id: votes.snap_id, total_votes: votes.total_votes as u64, ratings_band }
    }

    /// Converts this into its protobuf version for wire transfer.
    pub fn into_protobuf_rating(self) -> (r: pb::Rating)
        ensures
            r.snap_id@ == self.snap_id@,
            r.total_votes == self.total_votes,
            r.ratings_band == pb::band_number(band_to_pb(self.ratings_band)),
    {
        pb::Rating {
            snap_id: self.snap_id,
            total_votes: self.total_votes,
            ratings_band: self.ratings_band.to_pb().to_i32(),
        }
    }

    /// Creates a rating from its protobuf version. The wire band must be one of the
    /// six known numbers.
    pub fn from_protobuf_rating(value: pb::Rating) -> (r: Self)
        requires
            0 <= value.ratings_band <= 5,
        ensures
            r.snap_id@ == value.snap_id@,
            r.total_votes == value.total_votes,
            pb::band_number(band_to_pb(r.ratings_band)) == value.ratings_band,
    {
        let band = pb::RatingsBand::try_from_i32(value.ratings_band);
        match band {
            Some(b) => Rating {
                snap_id: value.snap_id,
                total_votes: value.total_votes,
                ratings_band: RatingsBand::from_pb(b),
            },
            None => {
                assert(false);
                Rating::default()
            }
        }
    }
}

/// The bands are decided by the thresholds in turn, so a band is never better than the
/// highest threshold that the adjusted ratio exceeds, and a ratio that exceeds a higher
/// threshold is banded at least that well.
pub proof fn lemma_band_thresholds_nest(positive: int, total: int)
    requires
        lower_bound_exceeds(positive, total, GOOD_UPPER as int),
    ensures
        lower_bound_exceeds(positive, total, NEUTRAL_UPPER as int),
        lower_bound_exceeds(positive, total, POOR_UPPER as int),
        lower_bound_exceeds(positive, total, VERY_POOR_UPPER as int),
{
    lemma_lower_bound_exceeds_smaller(positive, total, 80, 55);
    lemma_lower_bound_exceeds_smaller(positive, total, 80, 45);
    lemma_lower_bound_exceeds_smaller(positive, total, 80, 20);
}

/// More positive votes among the same total never give a worse band.
pub proof fn lemma_band_monotonic_in_positive_votes(low: int, high: int, total: int)
    requires
        0 <= low <= high <= total,
        total >= INSUFFICIENT_VOTES_QUANTITY,
    ensures
        band_rank(band_for_counts(low, total)).unwrap() <= band_rank(band_for_counts(high, total)).unwrap(),
{
    if lower_bound_exceeds(low, total, 80) {
        lemma_lower_bound_monotonic(low, high, total, 80);
    }
    if lower_bound_exceeds(low, total, 55) {
        lemma_lower_bound_monotonic(low, high, total, 55);
    }
    if lower_bound_exceeds(low, total, 45) {
        lemma_lower_bound_monotonic(low, high, total, 45);
    }
    if lower_bound_exceeds(low, total, 20) {
        lemma_lower_bound_monotonic(low, high, total, 20);
    }
}

/// The protocol numbers the bands from the best: `VeryGood` is 0, a worse band has a
/// greater number, the rated bands take 0 to 4, and a band without enough votes is 5. So
/// each band goes on the wire as the protocol's number for that same band.
pub proof fn lemma_wire_band_numbers(a: RatingsBand, b: RatingsBand)
    ensures
        pb::band_number(band_to_pb(RatingsBand::VeryGood)) == 0,
        pb::band_number(band_to_pb(RatingsBand::VeryPoor)) == 4,
        pb::band_number(band_to_pb(RatingsBand::InsufficientVotes)) == 5,
        band_rank(a) is Some ==> 0 <= pb::band_number(band_to_pb(a)) <= 4,
        (band_rank(a) is Some && band_rank(b) is Some) ==>
            (band_rank(a).unwrap() > band_rank(b).unwrap() <==> pb::band_number(band_to_pb(a)) < pb::band_number(band_to_pb(b))),
        pb::band_number(band_to_pb(a)) == pb::band_number(band_to_pb(b)) ==> a == b,
{
}

/// The adjusted ratio `a` is at most `b`: every fraction `p / q` (with `p >= 0`) that `a`
/// lies strictly above, `b` lies strictly above too. As the fractions are dense among the
/// reals, this is `a <= b` for the two lower bounds as real numbers.
pub open spec fn ratio_at_most(a: AdjustedRatio, b: AdjustedRatio) -> bool {
    forall|p: int, q: int| 0 <= p && 0 < q && #[trigger] lower_bound_above(a.counts().0, a.counts().1, p, q)
        ==> lower_bound_above(b.counts().0, b.counts().1, p, q)
}

/// More positive votes among the same total never give a lower adjusted ratio.
pub proof fn lemma_ratio_monotonic_in_positive_votes(a: AdjustedRatio, b: AdjustedRatio)
    requires
        a.counts().1 == b.counts().1,
        0 <= a.counts().0 <= b.counts().0 <= b.counts().1,
    ensures
        ratio_at_most(a, b),
{
    assert forall|p: int, q: int| 0 <= p && 0 < q && #[trigger] lower_bound_above(a.counts().0, a.counts().1, p, q)
        implies lower_bound_above(b.counts().0, b.counts().1, p, q) by {
        lemma_lower_bound_above_monotonic(a.counts().0, b.counts().0, a.counts().1, p, q);
    }
}

/// A band is never better than the observed share of positive votes: `VeryGood` needs
/// more than 80% of the votes positive, `Good` more than 55%, `Neutral` more than 45%
/// and `Poor` more than 20%.
pub proof fn lemma_band_below_observed_ratio(positive: int, total: int)
    requires
        0 <= positive <= total,
        total >= INSUFFICIENT_VOTES_QUANTITY,
    ensures
        band_for_counts(positive, total) == RatingsBand::VeryGood ==> 100 * positive > 80 * total,
        band_for_counts(positive, total) == RatingsBand::Good ==> 100 * positive > 55 * total,
        band_for_counts(positive, total) == RatingsBand::Neutral ==> 100 * positive > 45 * total,
        band_for_counts(positive, total) == RatingsBand::Poor ==> 100 * positive > 20 * total,
{
    if lower_bound_exceeds(positive, total, 80) {
        lemma_lower_bound_below_ratio(positive, total, 80);
    }
    if lower_bound_exceeds(positive, total, 55) {
        lemma_lower_bound_below_ratio(positive, total, 55);
    }
    if lower_bound_exceeds(positive, total, 45) {
        lemma_lower_bound_below_ratio(positive, total, 45);
    }
    if lower_bound_exceeds(positive, total, 20) {
        lemma_lower_bound_below_ratio(positive, total, 20);
    }
}

/// With enough votes, all of them positive, a snap is very good.
pub proof fn lemma_unanimous_votes_very_good(total: int)
    requires
        total >= INSUFFICIENT_VOTES_QUANTITY,
    ensures
        band_for_counts(total, total) == RatingsBand::VeryGood,
{
    lemma_unanimous_exceeds_eighty(total);
}

/// With enough votes, none of them positive, a snap is very poor.
pub proof fn lemma_no_positive_votes_very_poor(total: int)
    requires
        total >= INSUFFICIENT_VOTES_QUANTITY,
    ensures
        band_for_counts(0, total) == RatingsBand::VeryPoor,
{
    lemma_no_positive_exceeds_nothing(total, 80);
    lemma_no_positive_exceeds_nothing(total, 55);
    lemma_no_positive_exceeds_nothing(total, 45);
    lemma_no_positive_exceeds_nothing(total, 20);
}

} // verus!

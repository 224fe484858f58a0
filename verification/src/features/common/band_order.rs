//! The partial order of ratings bands: better bands are greater, and a band without
//! enough votes is comparable with none.
use vstd::prelude::*;
use vstd::std_specs::cmp::PartialOrdSpecImpl;
use std::cmp::Ordering;
use crate::features::common::entities::RatingsBand;

verus! {

/// The rank of a band: `VeryGood` highest, `VeryPoor` lowest, and none for a band without
/// enough votes.
pub open spec fn band_rank(band: RatingsBand) -> Option<int> {
    match band {
        RatingsBand::VeryGood => Some(5),
        RatingsBand::Good => Some(4),
        RatingsBand::Neutral => Some(3),
        RatingsBand::Poor => Some(2),
        RatingsBand::VeryPoor => Some(1),
        RatingsBand::InsufficientVotes => None,
    }
}

/// How two bands compare: by rank, and not at all when either lacks one.
pub open spec fn band_comparison(a: RatingsBand, b: RatingsBand) -> Option<Ordering> {
    match (band_rank(a), band_rank(b)) {
        (Some(x), Some(y)) => Some(
            if x < y {
                Ordering::Less
            } else if x == y {
                Ordering::Equal
            } else {
                Ordering::Greater
            },
        ),
        _ => None,
    }
}

fn rank_of(band: RatingsBand) -> (r: Option<u8>)
    ensures
        match band_rank(band) {
            Some(x) => r == Some(x as u8),
            None => r is None,
        },
{
    match band {
        RatingsBand::VeryGood => Some(5),
        RatingsBand::Good => Some(4),
        RatingsBand::Neutral => Some(3),
        RatingsBand::Poor => Some(2),
        RatingsBand::VeryPoor => Some(1),
        RatingsBand::InsufficientVotes => None,
    }
}

impl PartialOrd for RatingsBand {
    fn partial_cmp(&self, other: &Self) -> (r: Option<Ordering>) {
        match (rank_of(*self), rank_of(*other)) {
            (Some(x), Some(y)) => {
                if x < y {
                    Some(Ordering::Less)
                } else if x == y {
                    Some(Ordering::Equal)
                } else {
                    Some(Ordering::Greater)
                }
            },
            _ => None,
        }
    }
}

impl PartialOrdSpecImpl for RatingsBand {
    open spec fn obeys_partial_cmp_spec() -> bool {
        true
    }

    open spec fn partial_cmp_spec(&self, other: &Self) -> Option<Ordering> {
        band_comparison(*self, *other)
    }
}

/// A band without enough votes is comparable with no band, itself included.
pub proof fn lemma_insufficient_votes_incomparable(band: RatingsBand)
    ensures
        band_comparison(RatingsBand::InsufficientVotes, band) is None,
        band_comparison(band, RatingsBand::InsufficientVotes) is None,
{
}

/// Every band with enough votes equals itself, and any two of them are comparable.
pub proof fn lemma_rated_bands_total(a: RatingsBand, b: RatingsBand)
    requires
        a != RatingsBand::InsufficientVotes,
        b != RatingsBand::InsufficientVotes,
    ensures
        band_comparison(a, b) is Some,
        band_comparison(a, a) == Some(Ordering::Equal),
        band_comparison(a, b) == Some(Ordering::Equal) <==> a == b,
{
}

/// Swapping the two bands reverses the comparison.
pub proof fn lemma_band_comparison_antisymmetric(a: RatingsBand, b: RatingsBand)
    ensures
        band_comparison(a, b) == Some(Ordering::Less) <==> band_comparison(b, a) == Some(Ordering::Greater),
        band_comparison(a, b) == Some(Ordering::Equal) <==> band_comparison(b, a) == Some(Ordering::Equal),
        band_comparison(a, b) is None <==> band_comparison(b, a) is None,
{
}

/// The order is transitive.
pub proof fn lemma_band_comparison_transitive(a: RatingsBand, b: RatingsBand, c: RatingsBand)
    requires
        band_comparison(a, b) == Some(Ordering::Less),
        band_comparison(b, c) == Some(Ordering::Less),
    ensures
        band_comparison(a, c) == Some(Ordering::Less),
{
}

/// From worst to best: `VeryPoor < Poor < Neutral < Good < VeryGood`.
pub proof fn lemma_band_order_chain()
    ensures
        band_comparison(RatingsBand::VeryPoor, RatingsBand::Poor) == Some(Ordering::Less),
        band_comparison(RatingsBand::Poor, RatingsBand::Neutral) == Some(Ordering::Less),
        band_comparison(RatingsBand::Neutral, RatingsBand::Good) == Some(Ordering::Less),
        band_comparison(RatingsBand::Good, RatingsBand::VeryGood) == Some(Ordering::Less),
{
}

} // verus!

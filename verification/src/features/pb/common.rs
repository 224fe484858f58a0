//! Messages shared by several services.
use vstd::prelude::*;

verus! {

/// The ratings band as it travels over the wire, numbered from `VeryGood = 0` to
/// `InsufficientVotes = 5`.
#[derive(Clone, Copy, Debug, PartialEq, Eq, Structural)]
pub enum RatingsBand {
    VeryGood,
    Good,
    Neutral,
    Poor,
    VeryPoor,
    InsufficientVotes,
}

/// The wire number of a band.
pub open spec fn band_number(band: RatingsBand) -> i32 {
    match band {
        RatingsBand::VeryGood => 0,
        RatingsBand::Good => 1,
        RatingsBand::Neutral => 2,
        RatingsBand::Poor => 3,
        RatingsBand::VeryPoor => 4,
        RatingsBand::InsufficientVotes => 5,
    }
}

impl RatingsBand {
    /// The wire number of this band.
    pub fn to_i32(self) -> (r: i32)
        ensures
            r == band_number(self),
    {
        match self {
            RatingsBand::VeryGood => 0,
            RatingsBand::Good => 1,
            RatingsBand::Neutral => 2,
            RatingsBand::Poor => 3,
            RatingsBand::VeryPoor => 4,
            RatingsBand::InsufficientVotes => 5,
        }
    }

    /// The band with the given wire number, if there is one.
    pub fn try_from_i32(value: i32) -> (r: Option<RatingsBand>)
        ensures
            0 <= value <= 5 <==> r is Some,
            r matches Some(b) ==> band_number(b) == value,
    {
        match value {
            0 => Some(RatingsBand::VeryGood),
            1 => Some(RatingsBand::Good),
            2 => Some(RatingsBand::Neutral),
            3 => Some(RatingsBand::Poor),
            4 => Some(RatingsBand::VeryPoor),
            5 => Some(RatingsBand::InsufficientVotes),
            _ => None,
        }
    }
}

/// An aggregated rating for a snap, as sent to clients.
pub struct Rating {
    pub snap_id: String,
    pub total_votes: u64,
    pub ratings_band: i32,
}

/// A point in time: whole seconds since the Unix epoch and the nanoseconds past them.
#[derive(Clone, Copy, Debug, PartialEq, Eq, Structural)]
pub struct Timestamp {
    pub seconds: i64,
    pub nanos: i32,
}

} // verus!

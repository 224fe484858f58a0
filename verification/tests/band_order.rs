use ratings::features::common::entities::RatingsBand;
use std::cmp::Ordering;

const RATED: [RatingsBand; 5] = [
    RatingsBand::VeryPoor,
    RatingsBand::Poor,
    RatingsBand::Neutral,
    RatingsBand::Good,
    RatingsBand::VeryGood,
];

#[test]
fn better_bands_are_greater() {
    assert!(RatingsBand::VeryGood > RatingsBand::Good);
    assert!(RatingsBand::Good > RatingsBand::Neutral);
    assert!(RatingsBand::Neutral > RatingsBand::Poor);
    assert!(RatingsBand::Poor > RatingsBand::VeryPoor);
    for (i, a) in RATED.iter().enumerate() {
        for (j, b) in RATED.iter().enumerate() {
            assert_eq!(a.partial_cmp(b), Some(i.cmp(&j)));
        }
    }
}

#[test]
fn insufficient_votes_compare_with_nothing() {
    for b in RATED.iter().chain([RatingsBand::InsufficientVotes].iter()) {
        assert_eq!(RatingsBand::InsufficientVotes.partial_cmp(b), None);
        assert_eq!(b.partial_cmp(&RatingsBand::InsufficientVotes), None);
    }
    assert!(!(RatingsBand::InsufficientVotes < RatingsBand::VeryPoor));
    assert!(!(RatingsBand::InsufficientVotes > RatingsBand::VeryPoor));
    assert_eq!(RatingsBand::VeryGood.partial_cmp(&RatingsBand::VeryGood), Some(Ordering::Equal));
}

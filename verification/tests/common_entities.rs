use ratings::features::common::entities::{
    calculate_band, AdjustedRatio, Rating, RatingsBand, VoteSummary,
};
use ratings::features::pb::common::{Rating as PbRating, RatingsBand as PbRatingsBand};

#[test]
fn test_insufficient_votes() {
    let votes = VoteSummary {
        snap_id: 1.to_string(),
        total_votes: 1,
        positive_votes: 1,
    };
    let (rating, band) = calculate_band(&votes);
    assert_eq!(
        band,
        RatingsBand::InsufficientVotes,
        "Should return InsufficientVotes when not enough votes exist for a given Snap."
    );
    assert!(
        rating.is_none(),
        "Should return band = None for insufficient votes."
    )
}

#[test]
fn test_sufficient_votes() {
    let votes = VoteSummary {
        snap_id: 1.to_string(),
        total_votes: 100,
        positive_votes: 100,
    };
    let (rating, band) = calculate_band(&votes);
    assert_eq!(
        band,
        RatingsBand::VeryGood,
        "Should return very good for a sufficient number of all positive votes."
    );
    assert!(
        rating.unwrap().exceeds_percent(70),
        "Should return fairly positive raw rating for this ration and volume of positive votes."
    )
}

/// The Wilson score lower bound computed in floating point, as the service displays it.
fn float_lower_bound(positive: i64, total: i64) -> f64 {
    let z: f64 = 1.96;
    let n = total as f64;
    let p = positive as f64 / n;
    ((p + (z * z) / (2.0 * n)) - z * f64::sqrt((p * (1.0 - p) + ((z * z) / (4.0 * n))) / n))
        / (1.0 + (z * z) / n)
}

fn float_band(value: f64) -> RatingsBand {
    if value > 0.8 {
        RatingsBand::VeryGood
    } else if value <= 0.8 && value > 0.55 {
        RatingsBand::Good
    } else if value <= 0.55 && value > 0.45 {
        RatingsBand::Neutral
    } else if value <= 0.45 && value > 0.2 {
        RatingsBand::Poor
    } else {
        RatingsBand::VeryPoor
    }
}

fn summary(positive: i64, total: i64) -> VoteSummary {
    VoteSummary { snap_id: "snap".to_string(), total_votes: total, positive_votes: positive }
}

#[test]
fn exact_band_agrees_with_floating_point_band() {
    for total in 25..400i64 {
        for positive in 0..=total {
            let (_, band) = calculate_band(&summary(positive, total));
            assert_eq!(band, float_band(float_lower_bound(positive, total)), "{positive}/{total}");
        }
    }
}

#[test]
fn exact_band_agrees_for_large_counts() {
    let totals = [1_000i64, 12_345, 1_000_000, 987_654_321, 4_000_000_000_000];
    for total in totals {
        for share in [0i64, 1, 19, 20, 21, 44, 45, 46, 54, 55, 56, 79, 80, 81, 99, 100] {
            let positive = total * share / 100;
            let (_, band) = calculate_band(&summary(positive, total));
            assert_eq!(band, float_band(float_lower_bound(positive, total)), "{positive}/{total}");
        }
    }
}

#[test]
fn adjusted_ratio_compares_exactly_with_thresholds() {
    for (positive, total) in [(90i64, 100i64), (10, 25), (500, 1000), (999, 1000)] {
        let (ratio, _) = calculate_band(&summary(positive, total));
        let ratio: AdjustedRatio = ratio.unwrap();
        assert_eq!(ratio.positive_votes(), positive);
        assert_eq!(ratio.total_votes(), total);
        let lb = float_lower_bound(positive, total);
        for percent in 0..=100u64 {
            assert_eq!(ratio.exceeds_percent(percent), lb > percent as f64 / 100.0, "{positive}/{total} > {percent}%");
        }
    }
}

#[test]
fn bands_at_the_edges() {
    assert_eq!(calculate_band(&summary(24, 24)).1, RatingsBand::InsufficientVotes);
    assert_eq!(calculate_band(&summary(25, 25)).1, RatingsBand::VeryGood);
    assert_eq!(calculate_band(&summary(0, 25)).1, RatingsBand::VeryPoor);
    assert_eq!(calculate_band(&summary(0, 1_000_000)).1, RatingsBand::VeryPoor);
    assert_eq!(calculate_band(&summary(600, 1000)).1, RatingsBand::Good);
    assert_eq!(calculate_band(&summary(500, 1000)).1, RatingsBand::Neutral);
    assert_eq!(calculate_band(&summary(400, 1000)).1, RatingsBand::Poor);
    assert_eq!(calculate_band(&summary(100, 1000)).1, RatingsBand::VeryPoor);
    assert_eq!(calculate_band(&summary(-5, 100)).1, RatingsBand::VeryPoor);
    assert_eq!(calculate_band(&summary(101, 100)).1, RatingsBand::VeryPoor);
    assert_eq!(calculate_band(&summary(i64::MAX, i64::MAX)).1, RatingsBand::VeryGood);
    assert_eq!(calculate_band(&summary(i64::MIN, i64::MAX)).1, RatingsBand::VeryPoor);
    assert_eq!(calculate_band(&summary(5, i64::MIN)).1, RatingsBand::InsufficientVotes);
}

#[test]
fn rating_from_summary() {
    let rating = Rating::new(summary(90, 100));
    assert_eq!(rating.snap_id, "snap");
    assert_eq!(rating.total_votes, 100);
    assert_eq!(rating.ratings_band, RatingsBand::VeryGood);
    let negative = Rating::new(summary(0, -1));
    assert_eq!(negative.total_votes, u64::MAX);
    assert_eq!(negative.ratings_band, RatingsBand::InsufficientVotes);
}

#[test]
fn rating_to_and_from_protobuf() {
    let rating = Rating::new(summary(500, 1000));
    let pb = rating.into_protobuf_rating();
    assert_eq!(pb.snap_id, "snap");
    assert_eq!(pb.total_votes, 1000);
    assert_eq!(pb.ratings_band, 2);
    let back = Rating::from_protobuf_rating(PbRating { snap_id: "x".to_string(), total_votes: 3, ratings_band: 5 });
    assert_eq!(back.ratings_band, RatingsBand::InsufficientVotes);
    assert_eq!(back.total_votes, 3);
    assert_eq!(RatingsBand::from_pb(PbRatingsBand::Poor), RatingsBand::Poor);
    assert_eq!(PbRatingsBand::try_from_i32(4), Some(PbRatingsBand::VeryPoor));
    assert_eq!(PbRatingsBand::try_from_i32(6), None);
    assert_eq!(PbRatingsBand::try_from_i32(-1), None);
}

#[test]
fn default_rating_and_band() {
    assert_eq!(RatingsBand::default(), RatingsBand::InsufficientVotes);
    let rating = Rating::default();
    assert_eq!(rating.snap_id, "");
    assert_eq!(rating.total_votes, 0);
    assert_eq!(rating.ratings_band, RatingsBand::InsufficientVotes);
}

#[test]
fn more_positive_votes_raise_the_ratio() {
    let low = calculate_band(&VoteSummary { snap_id: "a".to_string(), total_votes: 100, positive_votes: 50 }).0.unwrap();
    let high = calculate_band(&VoteSummary { snap_id: "b".to_string(), total_votes: 100, positive_votes: 70 }).0.unwrap();
    for percent in 0..=100u64 {
        if low.exceeds_percent(percent) {
            assert!(high.exceeds_percent(percent));
        }
    }
    assert!(high.exceeds_percent(55) && !low.exceeds_percent(55));
}

use ratings::features::app::entities::{calculate_band, Rating, RatingsBand, Vote};
use ratings::features::app::errors::AppError;
use ratings::features::app::service::{build_service, AppService};
use ratings::features::common::entities::{Rating as CommonRating, RatingsBand as CommonBand};
use ratings::status::Code;

fn votes(up: usize, down: usize) -> Vec<Vote> {
    let mut v = Vec::new();
    for i in 0..(up + down) {
        v.push(Vote { vote_up: if i % 2 == 0 { i / 2 < up } else { (up + down - 1 - i / 2) < up } });
    }
    let count = v.iter().filter(|x| x.vote_up).count();
    assert_eq!(count, up);
    v
}

#[test]
fn bands_from_individual_votes() {
    assert_eq!(calculate_band(votes(24, 0)), RatingsBand::InsufficientVotes);
    assert_eq!(calculate_band(votes(100, 0)), RatingsBand::VeryGood);
    assert_eq!(calculate_band(votes(60, 40)), RatingsBand::Neutral);
    assert_eq!(calculate_band(votes(50, 50)), RatingsBand::Poor);
    assert_eq!(calculate_band(votes(0, 30)), RatingsBand::VeryPoor);
    assert_eq!(calculate_band(votes(700, 300)), RatingsBand::Good);
}

#[test]
fn rating_counts_votes() {
    let rating = Rating::new("snap".to_string(), votes(80, 20));
    assert_eq!(rating.snap_id, "snap");
    assert_eq!(rating.total_votes, 100);
    assert_eq!(rating.ratings_band, RatingsBand::Good);
    let dto = rating.into_dto();
    assert_eq!(dto.ratings_band, 1);
    assert_eq!(dto.total_votes, 100);
}

#[test]
fn get_rating_checks_and_replies() {
    assert!(AppService::check_get_rating(&"abc".to_string()).is_ok());
    let e = AppService::check_get_rating(&String::new()).unwrap_err();
    assert_eq!(e.code, Code::InvalidArgument);
    assert_eq!(e.message, "snap id");
    let ok = AppService::get_rating_reply(Ok(CommonRating {
        snap_id: "s".to_string(),
        total_votes: 7,
        ratings_band: CommonBand::InsufficientVotes,
    }))
    .ok()
    .unwrap();
    let rating = ok.rating.unwrap();
    assert_eq!(rating.snap_id, "s");
    assert_eq!(rating.ratings_band, 5);
    let err = AppService::get_rating_reply(Err(AppError::FailedToGetRating)).err().unwrap();
    assert_eq!(err.code, Code::Unknown);
    assert_eq!(err.message, "Internal server error");
}

#[test]
fn app_errors_and_server() {
    assert_eq!(AppError::FailedToGetRating.message(), "failed to get rating for snap");
    assert_eq!(AppError::Unknown.message(), "unknown user error");
    let server = build_service();
    assert!(server.max_decoding_message_size.is_none());
}

use ratings::features::chart::entities::ChartData;
use ratings::features::common::entities::{Rating, RatingsBand};
use ratings::features::pb::chart::RawRating;
use ratings::features::pb::common::Timestamp;
use ratings::features::user::entities::Vote;
use ratings::grpc::app::{
    check_get_bulk_ratings, check_get_rating, get_rating_reply, populate_chart_data_with_names, RatingService, MAX_IDS,
};
use ratings::grpc::user::{
    authenticate_reply, check_authenticate, database_reply, get_snap_votes_reply, vote_from_request, UserService,
};
use ratings::grpc::{server_security, ServerSecurity};
use ratings::proto::common::{ChartData as PbChartData, Rating as PbRating};
use ratings::proto::user::Vote as PbVote;
use ratings::status::Code;
use std::sync::Arc;

fn rating() -> Rating {
    Rating { snap_id: "id".to_string(), total_votes: 30, ratings_band: RatingsBand::Neutral }
}

#[test]
fn bulk_requests_are_bounded() {
    assert_eq!(MAX_IDS, 250);
    let e = check_get_bulk_ratings(&Vec::new()).unwrap_err();
    assert_eq!((e.code, e.message.as_str()), (Code::InvalidArgument, "snap_ids cannot be empty"));
    assert!(check_get_bulk_ratings(&vec!["a".to_string(); 250]).is_ok());
    let e = check_get_bulk_ratings(&vec!["a".to_string(); 251]).unwrap_err();
    assert_eq!((e.code, e.message.as_str()), (Code::InvalidArgument, "Too many snap_ids requested. The maximum is 250"));
}

#[test]
fn rating_requests_and_replies() {
    assert!(check_get_rating(&"x".to_string()).is_ok());
    assert_eq!(check_get_rating(&String::new()).unwrap_err().message, "snap id");
    let reply = get_rating_reply::<(), ()>(Ok(rating()), Ok("Name".to_string())).ok().unwrap();
    let r = reply.rating.unwrap();
    assert_eq!((r.snap_id.as_str(), r.total_votes, r.ratings_band, r.snap_name.as_str()), ("id", 30, 2, "Name"));
    let e = get_rating_reply::<(), ()>(Ok(rating()), Err(())).err().unwrap();
    assert_eq!((e.code, e.message.as_str()), (Code::Unknown, "Internal server error"));
    assert!(get_rating_reply::<(), ()>(Err(()), Ok("n".to_string())).is_err());
}

#[test]
fn named_wire_forms() {
    let p = PbRating::from_rating_and_snap_name(rating(), "Snap".to_string());
    assert_eq!((p.snap_id.as_str(), p.ratings_band, p.snap_name.as_str()), ("id", 2, "Snap"));
    let c = PbChartData::from_chart_data_and_snap_name(
        ChartData { raw_rating: RawRating { order_key: 9 }, rating: rating() },
        "Snap".to_string(),
    );
    assert_eq!(c.raw_rating.order_key, 9);
    assert_eq!(c.rating.unwrap().snap_name, "Snap");
    let v = PbVote::from_vote_and_snap_name(
        Vote {
            client_hash: "h".to_string(),
            snap_id: "s".to_string(),
            snap_revision: 4,
            vote_up: false,
            timestamp: Timestamp { seconds: 10, nanos: 20 },
        },
        "Name",
    );
    assert_eq!((v.snap_id.as_str(), v.snap_revision, v.vote_up, v.snap_name.as_str()), ("s", 4, false, "Name"));
    assert_eq!(v.timestamp, Some(Timestamp { seconds: 10, nanos: 20 }));
}

#[test]
fn user_checks_and_replies() {
    assert!(check_authenticate(&"x".repeat(64)).is_ok());
    let e = check_authenticate("abc").unwrap_err();
    assert_eq!((e.code, e.message.as_str()), (Code::InvalidArgument, "Client hash must be of length 64"));
    let ok = authenticate_reply::<(), ()>(Ok(()), Ok("tok".to_string())).ok().unwrap();
    assert_eq!(ok.token, "tok");
    let e = authenticate_reply::<(), ()>(Ok(()), Err(())).err().unwrap();
    assert_eq!((e.code, e.message.as_str()), (Code::Internal, "internal error"));
    let e = authenticate_reply::<(), ()>(Err(()), Ok("tok".to_string())).err().unwrap();
    assert_eq!((e.code, e.message.as_str()), (Code::InvalidArgument, "id"));
    assert!(database_reply::<u64, ()>(Ok(1)).is_ok());
    let e = database_reply::<u64, ()>(Err(())).unwrap_err();
    assert_eq!((e.code, e.message.as_str()), (Code::Unknown, "Internal server error"));
    let vote = vote_from_request("h".to_string(), "s".to_string(), -1, true);
    assert_eq!(vote.snap_revision, u32::MAX);
    assert!(vote.vote_up);
    assert!(vote.timestamp.seconds > 1_600_000_000);
}

#[test]
fn servers_and_security() {
    let server = RatingService::new_server(Arc::new(7u8));
    assert_eq!(*server.inner.ctx, 7);
    let server = UserService::new_server(Arc::new("ctx"));
    assert_eq!(*server.inner.ctx, "ctx");
    assert!(matches!(server_security(None, None), ServerSecurity::Plain));
    match server_security(Some("chain.pem".to_string()), Some("key.pem".to_string())) {
        ServerSecurity::Tls { keychain_path, key_path } => {
            assert_eq!(keychain_path, "chain.pem");
            assert_eq!(key_path, "key.pem");
        }
        ServerSecurity::Plain => panic!("expected TLS"),
    }
}

fn sample_vote(snap: &str, revision: u32) -> Vote {
    Vote {
        client_hash: "h".to_string(),
        snap_id: snap.to_string(),
        snap_revision: revision,
        vote_up: true,
        timestamp: Timestamp { seconds: 100, nanos: 5 },
    }
}

#[test]
fn snap_votes_replies() {
    let ok: Result<Vec<(Vote, Result<String, ()>)>, ()> =
        Ok(vec![(sample_vote("a", 1), Ok("Alpha".to_string())), (sample_vote("b", 2), Ok("Beta".to_string()))]);
    let resp = get_snap_votes_reply(ok).ok().unwrap();
    assert_eq!(resp.votes.len(), 2);
    assert_eq!(resp.votes[0].snap_id, "a");
    assert_eq!(resp.votes[0].snap_name, "Alpha");
    assert_eq!(resp.votes[1].snap_revision, 2);
    assert_eq!(resp.votes[1].snap_name, "Beta");
    let one_failed: Result<Vec<(Vote, Result<String, ()>)>, ()> =
        Ok(vec![(sample_vote("a", 1), Ok("Alpha".to_string())), (sample_vote("b", 2), Err(()))]);
    let e = get_snap_votes_reply(one_failed).err().unwrap();
    assert_eq!((e.code, e.message.as_str()), (Code::Unknown, "Internal server error"));
    let failed: Result<Vec<(Vote, Result<String, ()>)>, ()> = Err(());
    assert!(get_snap_votes_reply(failed).is_err());
    let empty: Result<Vec<(Vote, Result<String, ()>)>, ()> = Ok(Vec::new());
    assert!(get_snap_votes_reply(empty).ok().unwrap().votes.is_empty());
}

#[test]
fn chart_data_named_in_order() {
    let d = |k: u32| ChartData { raw_rating: RawRating { order_key: k }, rating: rating() };
    let named = populate_chart_data_with_names::<()>(vec![(d(7), Ok("Seven".to_string())), (d(3), Ok("Three".to_string()))]).ok().unwrap();
    assert_eq!(named.len(), 2);
    assert_eq!(named[0].raw_rating.order_key, 7);
    assert_eq!(named[0].rating.as_ref().unwrap().snap_name, "Seven");
    assert_eq!(named[1].rating.as_ref().unwrap().snap_name, "Three");
    let e = populate_chart_data_with_names(vec![(d(7), Ok("Seven".to_string())), (d(3), Err(()))]).err().unwrap();
    assert_eq!((e.code, e.message.as_str()), (Code::Unknown, "Internal server error"));
}

#[test]
fn votes_are_stamped_now() {
    let v = vote_from_request("h".to_string(), "s".to_string(), 3, false);
    let now = std::time::SystemTime::now().duration_since(std::time::UNIX_EPOCH).unwrap().as_secs() as i64;
    assert!((v.timestamp.seconds - now).abs() < 60);
    assert!(v.timestamp.nanos >= 0 && v.timestamp.nanos < 1_000_000_000);
}

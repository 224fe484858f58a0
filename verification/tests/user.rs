use ratings::features::pb::common::Timestamp;
use ratings::features::user::entities::{User, Vote};
use ratings::features::user::errors::UserError;
use ratings::features::user::interface::{validate_client_hash, EXPECTED_CLIENT_HASH_LENGTH};
use ratings::features::user::service::{build_service, UserService};
use ratings::status::Code;
use ratings::utils::jwt::JwtError;

fn hash() -> String {
    "a".repeat(64)
}

#[test]
fn client_hashes_are_sixty_four_bytes() {
    assert_eq!(EXPECTED_CLIENT_HASH_LENGTH, 64);
    assert!(validate_client_hash(&hash()));
    assert!(!validate_client_hash(&"a".repeat(63)));
    assert!(!validate_client_hash(&"a".repeat(65)));
    assert!(!validate_client_hash(""));
    // 32 two-byte characters are 64 bytes.
    assert!(validate_client_hash(&"é".repeat(32)));
}

#[test]
fn user_requests_and_replies() {
    assert!(UserService::check_client_id(&hash()).is_ok());
    let e = UserService::check_client_id("short").unwrap_err();
    assert_eq!((e.code, e.message.as_str()), (Code::InvalidArgument, "id"));
    let user = User::new(&hash());
    let ok = UserService::register_reply(Ok(user.clone()), Ok("tok".to_string())).ok().unwrap();
    assert_eq!(ok.token, "tok");
    let e = UserService::register_reply(Ok(user), Err(JwtError::Unknown)).err().unwrap();
    assert_eq!((e.code, e.message.as_str()), (Code::Internal, "internal"));
    let e = UserService::register_reply(Err(UserError::FailedToCreateUserRecord), Ok("tok".to_string())).err().unwrap();
    assert_eq!((e.code, e.message.as_str()), (Code::InvalidArgument, "id"));
    let ok = UserService::authenticate_reply(Ok(true), Ok("t2".to_string())).ok().unwrap();
    assert_eq!(ok.token, "t2");
    let e = UserService::authenticate_reply(Ok(false), Ok("t2".to_string())).err().unwrap();
    assert_eq!((e.code, e.message.as_str()), (Code::Unauthenticated, "invalid credentials"));
    let e = UserService::authenticate_reply(Ok(true), Err(JwtError::Unknown)).err().unwrap();
    assert_eq!((e.code, e.message.as_str()), (Code::Internal, "internal"));
    let e = UserService::authenticate_reply(Err(UserError::Unknown), Ok("t".to_string())).err().unwrap();
    assert_eq!((e.code, e.message.as_str()), (Code::InvalidArgument, "id"));
    assert!(UserService::acknowledge::<UserError>(Err(UserError::FailedToCastVote)).is_ok());
    assert!(UserService::acknowledge::<UserError>(Ok(())).is_ok());
}

#[test]
fn new_users_and_votes() {
    let user = User::new(&hash());
    assert_eq!(user.id, -1);
    assert_eq!(user.client_hash, hash());
    assert_eq!(user.created, user.last_seen);
    assert!(user.created.seconds > 1_600_000_000);
    let vote = Vote {
        client_hash: hash(),
        snap_id: "snap".to_string(),
        snap_revision: 3_000_000_000,
        vote_up: true,
        timestamp: Timestamp { seconds: 1_700_000_000, nanos: 123 },
    };
    let dto = vote.into_dto();
    assert_eq!(dto.snap_id, "snap");
    assert_eq!(dto.snap_revision, 3_000_000_000u32 as i32);
    assert!(dto.vote_up);
    assert_eq!(dto.timestamp, Some(Timestamp { seconds: 1_700_000_000, nanos: 0 }));
}

#[test]
fn user_servers() {
    let server = UserService.to_server();
    assert!(server.max_decoding_message_size.is_none());
    let built = build_service();
    assert!(built.max_encoding_message_size.is_none());
}

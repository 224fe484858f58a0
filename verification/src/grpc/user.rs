//! The decisions of the user service: which client hashes are accepted, and what is
//! answered for each outcome of the database and token calls.
use vstd::prelude::*;
use std::sync::Arc;
use crate::features::pb::common::Timestamp;
use crate::features::pb::user::UserServer;
use crate::features::user::entities::Vote;
use crate::proto::user::{AuthenticateResponse, GetSnapVotesResponse, Vote as PbVote};
use crate::status::{Code, Status};
use crate::utils::clock::{now_utc, EARLIEST_SECONDS, LATEST_SECONDS};
use crate::utils::text::{decimal, push_decimal};

verus! {

/// The length we expect a client hash to be, in bytes.
pub const EXPECTED_CLIENT_HASH_LENGTH: usize = 64;

/// An empty struct used to construct a [`UserServer`], over the service's shared context.
pub struct UserService<C> {
    pub ctx: Arc<C>,
}

impl<C> UserService<C> {
    /// The server that answers user requests with the given context.
    pub fn new_server(ctx: Arc<C>) -> (r: UserServer<UserService<C>>)
        ensures
            r.inner.ctx == ctx,
            r.max_decoding_message_size is None,
            r.max_encoding_message_size is None,
    {
        UserServer::new(UserService { ctx })
    }
}

/// The message refusing a client hash of the wrong length.
pub open spec fn client_hash_length_message() -> Seq<char> {
    "Client hash must be of length "@ + decimal(EXPECTED_CLIENT_HASH_LENGTH as nat)
}

/// An authentication must give a client hash of exactly [`EXPECTED_CLIENT_HASH_LENGTH`]
/// bytes; any other is refused as an invalid argument that says so.
pub fn check_authenticate(id: &str) -> (r: Result<(), Status>)
    ensures
        r is Ok <==> id.len() == EXPECTED_CLIENT_HASH_LENGTH,
        r matches Err(s) ==> s.code == Code::InvalidArgument && s.message@ == client_hash_length_message(),
{
    if id.len() != EXPECTED_CLIENT_HASH_LENGTH {
        let mut message = String::from_str("Client hash must be of length ");
        push_decimal(&mut message, EXPECTED_CLIENT_HASH_LENGTH as u64);
        return Err(Status { code: Code::InvalidArgument, message });
    }
    Ok(())
}

/// The reply to an authentication, given whether the user was stored and, if so, the
/// outcome of signing its token: the token; an internal error when signing failed; an
/// invalid argument `id` when the user could not be stored.
pub fn authenticate_reply<E, F>(stored: Result<(), E>, token: Result<String, F>) -> (r: Result<AuthenticateResponse, Status>)
    ensures
        stored is Err ==> (r matches Err(s) && s.code == Code::InvalidArgument && s.message@ == "id"@),
        stored is Ok ==> match token {
            Ok(t) => r matches Ok(resp) && resp.token@ == t@,
            Err(_) => r matches Err(s) && s.code == Code::Internal && s.message@ == "internal error"@,
        },
{
    match stored {
        Ok(()) => match token {
            Ok(token) => Ok(AuthenticateResponse { token }),
            Err(_e) => Err(Status::internal("internal error")),
        },
        Err(_error) => Err(Status::invalid_argument("id")),
    }
}

/// The reply to a deletion or a vote: success when the database call succeeded, and an
/// unknown error, which hides the cause, else.
pub fn database_reply<T, E>(result: Result<T, E>) -> (r: Result<(), Status>)
    ensures
        r is Ok <==> result is Ok,
        r matches Err(s) ==> s.code == Code::Unknown && s.message@ == "Internal server error"@,
{
    match result {
        Ok(_) => Ok(()),
        Err(_e) => Err(Status::unknown("Internal server error")),
    }
}

/// The vote that a voting request records: the caller's, on the given revision (a
/// negative wire revision is read as its two's complement), cast now.
pub fn vote_from_request(client_hash: String, snap_id: String, snap_revision: i32, vote_up: bool) -> (r: Vote)
    ensures
        r.client_hash@ == client_hash@,
        r.snap_id@ == snap_id@,
        r.snap_revision == snap_revision as u32,
        r.vote_up == vote_up,
        EARLIEST_SECONDS <= r.timestamp.seconds <= LATEST_SECONDS,
        0 <= r.timestamp.nanos < 1_000_000_000,
{
    Vote { client_hash, snap_id, snap_revision: snap_revision as u32, vote_up, timestamp: now_utc() }
}

/// `p` is the wire form of `vote`, named `snap_name`.
pub open spec fn is_named_vote(p: PbVote, vote: Vote, snap_name: Seq<char>) -> bool {
    &&& p.snap_id@ == vote.snap_id@
    &&& p.snap_revision == vote.snap_revision as i32
    &&& p.vote_up == vote.vote_up
    &&& p.timestamp == Some(vote.timestamp)
    &&& p.snap_name@ == snap_name
}

/// The reply to a request for the caller's votes on a snap, given the votes' lookup and,
/// for each vote found, the lookup of its snap's name: every vote in order, named, when
/// all of them succeed; an unknown error, which hides the cause, when any fails.
pub fn get_snap_votes_reply<E, F>(votes: Result<Vec<(Vote, Result<String, F>)>, E>) -> (r: Result<GetSnapVotesResponse, Status>)
    ensures
        r is Ok <==> (votes matches Ok(v) && forall|i: int| 0 <= i < v.len() ==> (#[trigger] v[i]).1 is Ok),
        r matches Ok(resp) ==> votes matches Ok(v) && resp.votes@.len() == v.len()
            && forall|i: int| 0 <= i < v.len() ==>
                is_named_vote(#[trigger] resp.votes@[i], v[i].0, v[i].1->Ok_0@),
        r matches Err(s) ==> s.code == Code::Unknown && s.message@ == "Internal server error"@,
{
    let ghost given = votes;
    let mut items = match votes {
        Ok(items) => items,
        Err(_e) => return Err(Status::unknown("Internal server error")),
    };
    let ghost all = items@;
    let n = items.len();
    let mut named: Vec<PbVote> = Vec::new();
    let mut i: usize = 0;
    while i < n
        invariant
            given == votes,
            given matches Ok(v) && v@ == all,
            n == all.len(),
            i <= n,
            items@ == all.skip(i as int),
            named@.len() == i,
            forall|k: int| 0 <= k < i ==> (#[trigger] all[k]).1 is Ok,
            forall|k: int| 0 <= k < i ==> is_named_vote(#[trigger] named@[k], all[k].0, all[k].1->Ok_0@),
        decreases n - i,
    {
        let (vote, name) = items.remove(0);
        assert(all[i as int] == (vote, name));
        assert(items@ =~= all.skip(i as int + 1));
        match name {
            Ok(snap_name) => {
                named.push(PbVote::from_vote_and_snap_name(vote, snap_name.as_str()));
                i = i + 1;
            },
            Err(_e) => {
                assert(!((all[i as int]).1 is Ok));
                assert(!(given->Ok_0[i as int].1 is Ok));
                return Err(Status::unknown("Internal server error"));
            },
        }
    }
    Ok(GetSnapVotesResponse { votes: named })
}

impl PbVote {
    /// The wire form of a vote, with the snap's name.
    pub fn from_vote_and_snap_name(value: Vote, snap_name: &str) -> (r: Self)
        ensures
            r.snap_id@ == value.snap_id@,
            r.snap_revision == value.snap_revision as i32,
            r.vote_up == value.vote_up,
            r.timestamp == Some(value.timestamp),
            r.snap_name@ == snap_name@,
    {
        let timestamp = Some(Timestamp { seconds: value.timestamp.seconds, nanos: value.timestamp.nanos });
        PbVote {
            snap_id: value.snap_id,
            snap_revision: value.snap_revision as i32,
            vote_up: value.vote_up,
            timestamp,
            snap_name: String::from_str(snap_name),
        }
    }
}

} // verus!

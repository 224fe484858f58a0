//! The decisions of the user service's calls: which client hashes are accepted, and what
//! is answered for each outcome of registering, authenticating, deleting and voting.
use vstd::prelude::*;
use crate::features::pb::user::{AuthenticateResponse, RegisterResponse};
use crate::features::user::entities::User;
use crate::features::user::errors::UserError;
use crate::features::user::service::UserService;
use crate::status::{Code, Status};
use crate::utils::jwt::JwtError;

verus! {

/// The length, in bytes, that a client hash must have.
pub const EXPECTED_CLIENT_HASH_LENGTH: usize = 64;

/// A client hash is valid when it is exactly [`EXPECTED_CLIENT_HASH_LENGTH`] bytes long.
pub fn validate_client_hash(value: &str) -> (r: bool)
    ensures
        r == (value.len() == EXPECTED_CLIENT_HASH_LENGTH),
{
    value.len() == EXPECTED_CLIENT_HASH_LENGTH
}

impl UserService {
    /// A registration or authentication names the client by its hash, which must be
    /// valid; an invalid one is refused as an invalid argument `id`.
    pub fn check_client_id(id: &str) -> (r: Result<(), Status>)
        ensures
            r is Ok <==> id.len() == EXPECTED_CLIENT_HASH_LENGTH,
            r matches Err(s) ==> s.code == Code::InvalidArgument && s.message@ == "id"@,
    {
        if !validate_client_hash(id) {
            return Err(Status::invalid_argument("id"));
        }
        Ok(())
    }

    /// The reply to a registration, given whether the user was stored and, if so, the
    /// outcome of signing a token for it: the token; an internal error when signing
    /// failed; an invalid argument `id` when the user could not be stored.
    pub fn register_reply(stored: Result<User, UserError>, token: Result<String, JwtError>) -> (r: Result<RegisterResponse, Status>)
        ensures
            stored is Err ==> (r matches Err(s) && s.code == Code::InvalidArgument && s.message@ == "id"@),
            stored is Ok ==> match token {
                Ok(t) => r matches Ok(resp) && resp.token@ == t@,
                Err(_) => r matches Err(s) && s.code == Code::Internal && s.message@ == "internal"@,
            },
    {
        match stored {
            Ok(_user) => match token {
                Ok(token) => Ok(RegisterResponse { token }),
                Err(_error) => Err(Status::internal("internal")),
            },
            Err(_error) => Err(Status::invalid_argument("id")),
        }
    }

    /// The reply to an authentication, given whether the user exists and, if so, the
    /// outcome of signing a token for it: the token; an internal error when signing
    /// failed; "invalid credentials" for an unknown user; an invalid argument `id` when
    /// the lookup failed.
    pub fn authenticate_reply(exists: Result<bool, UserError>, token: Result<String, JwtError>) -> (r: Result<AuthenticateResponse, Status>)
        ensures
            exists is Err ==> (r matches Err(s) && s.code == Code::InvalidArgument && s.message@ == "id"@),
            exists matches Ok(false) ==> (r matches Err(s) && s.code == Code::Unauthenticated
                && s.message@ == "invalid credentials"@),
            exists matches Ok(true) ==> match token {
                Ok(t) => r matches Ok(resp) && resp.token@ == t@,
                Err(_) => r matches Err(s) && s.code == Code::Internal && s.message@ == "internal"@,
            },
    {
        match exists {
            Ok(found) => {
                if found {
                    match token {
                        Ok(token) => Ok(AuthenticateResponse { token }),
                        Err(_error) => Err(Status::internal("internal")),
                    }
                } else {
                    Err(Status::unauthenticated("invalid credentials"))
                }
            },
            Err(_error) => Err(Status::invalid_argument("id")),
        }
    }

    /// The reply to a deletion or a vote: success whatever the outcome, since a failure is
    /// only logged.
    pub fn acknowledge<E>(result: Result<(), E>) -> (r: Result<(), Status>)
        ensures
            r is Ok,
    {
        match result {
            Ok(_) => Ok(()),
            Err(_error) => Ok(()),
        }
    }
}

} // verus!

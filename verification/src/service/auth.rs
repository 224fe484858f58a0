//! The authorization check of the service's request interceptor.
use vstd::prelude::*;
use crate::status::{Code, Status};

verus! {

/// Whether a token is accepted. Every token is.
pub fn is_valid_token(token: &str) -> (r: bool)
    ensures
        r,
{
    return true;
}

/// A request must carry an authorization header; its value (empty when it is not valid
/// text) must be a valid token.
pub fn require_auth(authorization: Option<&str>) -> (r: Result<(), Status>)
    ensures
        r is Ok <==> authorization is Some,
        r matches Err(s) ==> s.code == Code::Unauthenticated && s.message@ == "Missing authorization header"@,
{
    let token = match authorization {
        Some(t) => t,
        None => return Err(Status::unauthenticated("Missing authorization header")),
    };
    if is_valid_token(token) {
        Ok(())
    } else {
        Err(Status::unauthenticated("Invalid token"))
    }
}

} // verus!

//! The authentication decisions applied to every incoming gRPC request: which paths are
//! public, how the authorization header must look, and which claims a request carries.
use vstd::prelude::*;
use crate::jwt::{Claims, JwtVerifier};
use crate::status::{Code, Status};
use crate::utils::jwt::{carries_claims, has_token_separators};
use crate::utils::text::{ends_with, has_suffix, split_whitespace, words};

verus! {

/// The path which is accessible without authentication.
pub const AUTHENTICATE_PATH: &'static str = "ratings.features.user.User/Authenticate";

/// The paths which are accessible without authentication.
pub const PUBLIC_PATHS: [&'static str; 1] = [AUTHENTICATE_PATH];

/// A request path is public when it ends with one of the public paths.
pub open spec fn is_public_path(path: Seq<char>) -> bool {
    has_suffix(path, AUTHENTICATE_PATH@)
}

/// What a request must show before it is let through: nothing on a public path; else an
/// authorization header of exactly two words (a scheme and a token), whose second word is
/// the token to check.
pub open spec fn required_token(path: Seq<char>, authorization: Option<Seq<char>>) -> Result<Option<Seq<char>>, Seq<char>> {
    if is_public_path(path) {
        Ok(None)
    } else {
        match authorization {
            None => Err("missing auth header"@),
            Some(h) => if words(h).len() != 2 {
                Err("malformed auth header"@)
            } else {
                Ok(Some(words(h)[1]))
            },
        }
    }
}

/// Whether `path` is one of the paths open to everybody.
pub fn is_public(path: &str) -> (r: bool)
    ensures
        r == is_public_path(path@),
{
    let mut i: usize = 0;
    while i < 1
        invariant
            i <= 1,
            i == 1 ==> !is_public_path(path@),
        decreases 1 - i,
    {
        if ends_with(path, PUBLIC_PATHS[i]) {
            return true;
        }
        i = i + 1;
    }
    false
}

/// The token a request must be checked with, if any; a request whose header is missing
/// or malformed is refused as unauthenticated.
pub fn authorization_token(path: &str, authorization: Option<&str>) -> (r: Result<Option<String>, Status>)
    ensures
        match required_token(path@, match authorization { Some(h) => Some(h@), None => None }) {
            Ok(None) => r matches Ok(None),
            Ok(Some(t)) => r matches Ok(Some(token)) && token@ == t,
            Err(m) => r matches Err(s) && s.code == Code::Unauthenticated && s.message@ == m,
        },
{
    if is_public(path) {
        return Ok(None);
    }
    let header = match authorization {
        Some(h) => h,
        None => return Err(Status::unauthenticated("missing auth header")),
    };
    let mut parts = split_whitespace(header);
    if parts.len() != 2 {
        return Err(Status::unauthenticated("malformed auth header"));
    }
    let token = parts.remove(1);
    Ok(Some(token))
}

/// Authenticates a request: nothing is needed on a public path; else the header's token
/// must decode to claims, which the request then carries: they are the claims that token
/// carries. A missing or malformed header,
/// or a token that does not decode, refuses the request as unauthenticated.
pub fn authorize(verifier: &JwtVerifier, path: &str, authorization: Option<&str>) -> (r: Result<Option<Claims>, Status>)
    ensures
        match required_token(path@, match authorization { Some(h) => Some(h@), None => None }) {
            Ok(None) => r matches Ok(None),
            Ok(Some(t)) => (r matches Ok(Some(c)) && has_token_separators(t)
                && carries_claims(t, c.sub@, c.exp as u64))
                || (r matches Err(s) && s.code == Code::Unauthenticated
                && s.message@ == "invalid auth header"@),
            Err(m) => r matches Err(s) && s.code == Code::Unauthenticated && s.message@ == m,
        },
{
    match authorization_token(path, authorization) {
        Ok(None) => Ok(None),
        Ok(Some(token)) => match verifier.decode(token.as_str()) {
            Ok(claims) => Ok(Some(claims)),
            Err(_) => Err(Status::unauthenticated("invalid auth header")),
        },
        Err(status) => Err(status),
    }
}

} // verus!

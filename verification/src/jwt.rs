//! Signing tokens for users and checking the tokens they present.
use vstd::prelude::*;
use crate::status::{Code, Status};
use crate::utils::clock::{now_utc, EARLIEST_SECONDS, LATEST_SECONDS};
use crate::utils::jwt::{
    decode_token, decoding_key_from_base64_secret, decoding_secret_accepted, encode_token,
    encoding_key_from_base64_secret, encoding_secret_accepted, expiry_for, has_token_separators,
    is_fresh_token_for, is_token_for, carries_claims, HmacEncodingKey, SECONDS_PER_DAY,
};

verus! {

/// How many days until JWT info expires.
pub const JWT_EXPIRY_DAYS: i64 = 1;

/// Errors that can happen while encoding and signing tokens with JWT.
#[derive(Debug)]
pub enum TokenError {
    /// The secret could not be turned into a key.
    DecodeSecretError(jsonwebtoken::errors::Error),
    /// The configuration could not be read; the message says why.
    Envy(String),
    /// An error occurred, but the reason was erased for security reasons.
    Erased,
    /// The token does not have the expected shape.
    InvalidShape,
    /// The authorization header is not valid.
    InvalidHeader,
    /// A failure that already carries its status.
    TonicStatus(Status),
}

impl TokenError {
    /// The status a client is answered with for this error: an unauthenticated status for
    /// a bad secret or header, the carried status itself, and an internal error else.
    pub fn into_status(self) -> (r: Status)
        ensures
            self is DecodeSecretError ==> r.code == Code::Unauthenticated && r.message@ == "invalid JWT token"@,
            self is InvalidHeader ==> r.code == Code::Unauthenticated && r.message@ == "invalid authz header"@,
            self matches TokenError::TonicStatus(s) ==> r.code == s.code && r.message@ == s.message@,
            (self is Envy || self is Erased || self is InvalidShape) ==> r.code == Code::Internal
                && r.message@ == "Internal Server Error"@,
    {
        match self {
            TokenError::DecodeSecretError(_) => Status::unauthenticated("invalid JWT token"),
            TokenError::InvalidHeader => Status::unauthenticated("invalid authz header"),
            TokenError::TonicStatus(status) => status,
            _ => Status::internal("Internal Server Error"),
        }
    }
}

/// Information representating a claim on a specific subject at a specific time.
#[derive(Clone, Debug)]
pub struct Claims {
    /// The subject
    pub sub: String,
    /// The expiration time
    pub exp: usize,
}

impl Claims {
    /// A claim on `sub` issued at `now` (seconds since the Unix epoch), expiring
    /// [`JWT_EXPIRY_DAYS`] days later.
    pub fn issued_at(sub: String, now: i64) -> (r: Self)
        requires
            EARLIEST_SECONDS <= now <= LATEST_SECONDS,
        ensures
            r.sub@ == sub@,
            r.exp == expiry_for(now as int, JWT_EXPIRY_DAYS as int),
    {
        let exp = now + JWT_EXPIRY_DAYS * SECONDS_PER_DAY;
        Claims { sub, exp: exp as usize }
    }

    /// Creates a new claim with the current datetime for the subject given by `sub`.
    pub fn new(sub: String) -> (r: Self)
        ensures
            r.sub@ == sub@,
            exists|now: int|
                EARLIEST_SECONDS <= now <= LATEST_SECONDS && r.exp == expiry_for(now, JWT_EXPIRY_DAYS as int),
    {
        let now = now_utc();
        Claims::issued_at(sub, now.seconds)
    }

    /// The claims read from a decoded token's `sub` field (a string) and `exp` field (an
    /// unsigned number, which must fit a `usize`); `None` when either is missing or of
    /// another shape.
    pub fn from_fields(sub: Option<String>, exp: Option<u64>) -> (r: Option<Claims>)
        ensures
            r is Some <==> (sub is Some && exp is Some && exp.unwrap() <= usize::MAX),
            r matches Some(c) ==> c.sub@ == sub.unwrap()@ && c.exp == exp.unwrap(),
    {
        match (sub, exp) {
            (Some(sub), Some(exp)) => {
                if exp <= usize::MAX as u64 {
                    Some(Claims { sub, exp: exp as usize })
                } else {
                    None
                }
            },
            _ => None,
        }
    }
}

/// Signs tokens for users.
pub struct JwtEncoder {
    encoding_key: HmacEncodingKey,
}

impl JwtEncoder {
    /// An encoder from a base64 secret; a secret that does not decode is reported with
    /// the key library's error.
    pub fn from_secret(secret: &str) -> (r: Result<JwtEncoder, TokenError>)
        ensures
            r is Ok <==> encoding_secret_accepted(secret@),
            r matches Err(e) ==> e is DecodeSecretError,
    {
        match encoding_key_from_base64_secret(secret) {
            Ok(encoding_key) => Ok(JwtEncoder { encoding_key }),
            Err(e) => Err(TokenError::DecodeSecretError(e)),
        }
    }

    /// A token for `sub`, expiring a day from now: the token carries the claims `sub` and
    /// the expiry a day after a time read from the clock. Signing with the HMAC key cannot
    /// fail; the reason for a failure of the signing library would be erased.
    pub fn encode(&self, sub: String) -> (r: Result<String, TokenError>)
        ensures
            r is Ok,
            r matches Ok(t) ==> is_fresh_token_for(t@, sub@, JWT_EXPIRY_DAYS as int),
    {
        let ghost sub_text = sub@;
        let claims = Claims::new(sub);
        let ghost now = choose|now: int|
            EARLIEST_SECONDS <= now <= LATEST_SECONDS && claims.exp == expiry_for(now, JWT_EXPIRY_DAYS as int);
        match encode_token(claims.sub.as_str(), claims.exp, &self.encoding_key) {
            Ok(s) => {
                assert(is_token_for(s@, sub_text, expiry_for(now, JWT_EXPIRY_DAYS as int)));
                Ok(s)
            },
            Err(_e) => Err(TokenError::Erased),
        }
    }
}

/// Checks the tokens that users present.
pub struct JwtVerifier {
    decoding_key: jsonwebtoken::DecodingKey,
}

impl JwtVerifier {
    /// Creates a new verifier from the given base64 secret; a secret that does not decode
    /// is reported with the key library's error.
    pub fn from_secret(secret: &str) -> (r: Result<Self, TokenError>)
        ensures
            r is Ok <==> decoding_secret_accepted(secret@),
            r matches Err(e) ==> e is DecodeSecretError,
    {
        match decoding_key_from_base64_secret(secret) {
            Ok(decoding_key) => Ok(JwtVerifier { decoding_key }),
            Err(e) => Err(TokenError::DecodeSecretError(e)),
        }
    }

    /// The claims of a valid token, which are those the token carries. A token that fails to check, or whose claims are not a
    /// string `sub` and a `usize` `exp`, is reported as [`TokenError::InvalidShape`].
    pub fn decode(&self, token: &str) -> (r: Result<Claims, TokenError>)
        ensures
            r matches Err(e) ==> e is InvalidShape,
            r is Ok ==> has_token_separators(token@),
            r matches Ok(c) ==> carries_claims(token@, c.sub@, c.exp as u64),
    {
        match decode_token(token, &self.decoding_key) {
            Ok(fields) => {
                let (sub, exp) = fields;
                match Claims::from_fields(sub, exp) {
                    Some(claims) => Ok(claims),
                    None => Err(TokenError::InvalidShape),
                }
            },
            Err(_e) => Err(TokenError::InvalidShape),
        }
    }
}

} // verus!

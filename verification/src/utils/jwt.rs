//! JSON Web Tokens: the claims a token carries, and signing and checking tokens.
use vstd::prelude::*;
use crate::utils::clock::{now_utc, EARLIEST_SECONDS, LATEST_SECONDS};

verus! {

#[verifier::external_type_specification]
#[verifier::external_body]
pub struct ExEncodingKey(jsonwebtoken::EncodingKey);

#[verifier::external_type_specification]
#[verifier::external_body]
pub struct ExDecodingKey(jsonwebtoken::DecodingKey);

#[verifier::external_type_specification]
#[verifier::external_body]
pub struct ExJwtLibError(jsonwebtoken::errors::Error);

/// Whether `jsonwebtoken::EncodingKey::from_base64_secret` accepts a secret: whether the
/// secret is valid standard base64.
pub uninterp spec fn encoding_secret_accepted(secret: Seq<char>) -> bool;

/// Whether `jsonwebtoken::DecodingKey::from_base64_secret` accepts a secret: whether the
/// secret is valid standard base64.
pub uninterp spec fn decoding_secret_accepted(secret: Seq<char>) -> bool;

/// An HMAC signing key. Its field is private to this module, and only
/// [`encoding_key_from_base64_secret`] builds one, so every such key comes from
/// `jsonwebtoken::EncodingKey::from_base64_secret`, whose keys are of the HMAC family.
pub struct HmacEncodingKey {
    key: jsonwebtoken::EncodingKey,
}

/// `jsonwebtoken::EncodingKey::from_base64_secret`: an HMAC signing key from a base64
/// secret. It succeeds exactly when the secret decodes, which is a function of the secret
/// alone; the key's bytes are not visible here.
#[verifier::external_body]
pub(crate) fn encoding_key_from_base64_secret(secret: &str) -> (r: Result<HmacEncodingKey, jsonwebtoken::errors::Error>)
    ensures
        r is Ok <==> encoding_secret_accepted(secret@),
{
    match jsonwebtoken::EncodingKey::from_base64_secret(secret) {
        Ok(key) => Ok(HmacEncodingKey { key }),
        Err(e) => Err(e),
    }
}

/// `jsonwebtoken::DecodingKey::from_base64_secret`: an HMAC checking key from a base64
/// secret. It succeeds exactly when the secret decodes, which is a function of the secret
/// alone; the key's bytes are not visible here.
#[verifier::external_body]
pub(crate) fn decoding_key_from_base64_secret(secret: &str) -> (r: Result<jsonwebtoken::DecodingKey, jsonwebtoken::errors::Error>)
    ensures
        r is Ok <==> decoding_secret_accepted(secret@),
{
    jsonwebtoken::DecodingKey::from_base64_secret(secret)
}

/// What `jsonwebtoken::encode` signs for the default header (HS256) and the claims
/// `{"sub": sub, "exp": exp}`: the base64url JSON of the header, a dot, and the base64url
/// JSON of the claims. It is a function of `sub` and `exp` alone.
pub uninterp spec fn token_signing_input(sub: Seq<char>, exp: nat) -> Seq<char>;

/// The claims a token carries, as `jsonwebtoken::decode` reads them: the `sub` field (when
/// it holds a string) and the `exp` field (when it holds a number that fits a `u64`) of the
/// JSON object that the token's part between its last two dots encodes in base64url;
/// `None` for a field that is missing or of another kind, or when that part does not
/// decode. It is a function of the token's text alone.
pub uninterp spec fn token_claim_fields(token: Seq<char>) -> (Option<Seq<char>>, Option<u64>);

/// The text of an optional string.
pub open spec fn text_of(s: Option<String>) -> Option<Seq<char>> {
    match s {
        Some(t) => Some(t@),
        None => None,
    }
}

/// `token` carries the claims `{"sub": sub, "exp": exp}`.
pub open spec fn carries_claims(token: Seq<char>, sub: Seq<char>, exp: u64) -> bool {
    token_claim_fields(token) == (Some(sub), Some(exp))
}

/// `token` is a token for the claims `{"sub": sub, "exp": exp}`: the text that was signed,
/// a dot, and a signature written in base64url, which holds no dot; and it carries those
/// claims.
pub open spec fn is_token_for(token: Seq<char>, sub: Seq<char>, exp: usize) -> bool {
    &&& exists|sig: Seq<char>| !sig.contains('.') && token == token_signing_input(sub, exp as nat) + "."@ + sig
    &&& carries_claims(token, sub, exp as u64)
}

/// `token` has the shape of a JSON web token: at least two dots, which part its header,
/// claims and signature.
pub open spec fn has_token_separators(token: Seq<char>) -> bool {
    exists|i: int, j: int| 0 <= i < j < token.len() && token[i] == '.' && token[j] == '.'
}

/// `jsonwebtoken::encode` with the default header (HS256) of the claims `{"sub": sub,
/// "exp": exp}`, in that order, signed with `key`. With an HMAC key it cannot fail: the
/// key's family matches HS256, the header and this map always serialize, and HMAC signing
/// is infallible. The token is the signing input of those claims, a dot, and the base64url
/// signature, so it carries those claims; the signature depends on the key's bytes, which
/// are not visible here.
#[verifier::external_body]
pub(crate) fn encode_token(sub: &str, exp: usize, key: &HmacEncodingKey) -> (r: Result<String, jsonwebtoken::errors::Error>)
    ensures
        r is Ok,
        r matches Ok(t) ==> exists|sig: Seq<char>|
            !sig.contains('.') && t@ == token_signing_input(sub@, exp as nat) + "."@ + sig,
        r matches Ok(t) ==> token_claim_fields(t@) == (Some(sub@), Some(exp as u64)),
{
    let mut claims = serde_json::Map::new();
    claims.insert(String::from("sub"), serde_json::Value::String(sub.to_string()));
    claims.insert(String::from("exp"), serde_json::Value::from(exp));
    jsonwebtoken::encode(&jsonwebtoken::Header::default(), &claims, &key.key)
}

/// `jsonwebtoken::decode` with the default validation (HS256, signature and expiry
/// checked), read as the token's `sub` string and `exp` number. It refuses a token with
/// fewer than two dots before anything else, and the fields it reads are those that the
/// token carries. Whether it accepts a well-shaped token depends on the key's bytes and on
/// the clock, which are not visible here.
#[verifier::external_body]
pub(crate) fn decode_token(token: &str, key: &jsonwebtoken::DecodingKey) -> (r: Result<(Option<String>, Option<u64>), jsonwebtoken::errors::Error>)
    ensures
        r is Ok ==> has_token_separators(token@),
        r matches Ok(fields) ==> token_claim_fields(token@) == (text_of(fields.0), fields.1),
{
    let data = jsonwebtoken::decode::<serde_json::Value>(token, key, &jsonwebtoken::Validation::default())?;
    let sub = match data.claims.get("sub") {
        Some(serde_json::Value::String(s)) => Some(s.clone()),
        _ => None,
    };
    let exp = match data.claims.get("exp") {
        Some(serde_json::Value::Number(n)) => n.as_u64(),
        _ => None,
    };
    Ok((sub, exp))
}

/// How many days until JWT info expires.
pub const JWT_EXPIRY_IN_DAYS: i64 = 1;

/// The seconds in a day.
pub const SECONDS_PER_DAY: i64 = 86400;

/// The expiry, in seconds since the Unix epoch, of a claim issued at `now`.
pub open spec fn expiry_for(now: int, days: int) -> usize {
    (now + days * SECONDS_PER_DAY) as usize
}

/// `token` is a token for the claims `{"sub": sub, "exp": exp}` where `exp` lies `days`
/// days after some time that the clock can read.
pub open spec fn is_fresh_token_for(token: Seq<char>, sub: Seq<char>, days: int) -> bool {
    exists|now: int|
        EARLIEST_SECONDS <= now <= LATEST_SECONDS
            && #[trigger] is_token_for(token, sub, expiry_for(now, days))
}

/// Decoding gives back what encoding put in: the claims that a token made for `sub` and
/// `exp` carries are `sub` and `exp`, so any claims read from that token are those.
pub proof fn lemma_token_round_trip(token: Seq<char>, sub: Seq<char>, exp: usize, read_sub: Seq<char>, read_exp: usize)
    requires
        is_token_for(token, sub, exp),
        carries_claims(token, read_sub, read_exp as u64),
    ensures
        read_sub == sub,
        read_exp == exp,
{
}

/// An error for things that can go wrong with JWT handling.
#[derive(Clone, Copy, Debug, PartialEq, Eq, Structural)]
pub enum JwtError {
    /// The shape of the data is invalid
    InvalidShape,
    /// Anything else that can go wrong
    Unknown,
}

impl JwtError {
    /// The error's message.
    pub fn message(&self) -> (r: &'static str)
        ensures
            *self == JwtError::InvalidShape ==> r@ == "jwt: invalid shape"@,
            *self == JwtError::Unknown ==> r@ == "jwt: unknown error"@,
    {
        match self {
            JwtError::InvalidShape => "jwt: invalid shape",
            JwtError::Unknown => "jwt: unknown error",
        }
    }
}

/// Information representating a claim on a specific subject at a specific time.
#[derive(Clone, Debug)]
pub struct Claims {
    /// The subject
    pub sub: String,
    /// The expiration time
    pub exp: usize,
}

impl Claims {
    /// A claim on `sub` issued at `now` (seconds since the Unix epoch), expiring
    /// [`JWT_EXPIRY_IN_DAYS`] days later.
    pub fn issued_at(sub: String, now: i64) -> (r: Self)
        requires
            EARLIEST_SECONDS <= now <= LATEST_SECONDS,
        ensures
            r.sub@ == sub@,
            r.exp == expiry_for(now as int, JWT_EXPIRY_IN_DAYS as int),
    {
        let exp = now + JWT_EXPIRY_IN_DAYS * SECONDS_PER_DAY;
        Claims { sub, exp: exp as usize }
    }

    /// Creates a new claim with the current datetime for the subject given by `sub`.
    pub fn new(sub: String) -> (r: Self)
        ensures
            r.sub@ == sub@,
            exists|now: int|
                EARLIEST_SECONDS <= now <= LATEST_SECONDS && r.exp == expiry_for(now, JWT_EXPIRY_IN_DAYS as int),
    {
        let now = now_utc();
        Claims::issued_at(sub, now.seconds)
    }

    /// The claims read from a decoded token's `sub` field (a string) and `exp` field (an
    /// unsigned number, which must fit a `usize`); `None` when either is missing or of
    /// another shape.
    pub fn from_fields(sub: Option<String>, exp: Option<u64>) -> (r: Option<Claims>)
        ensures
            r is Some <==> (sub is Some && exp is Some && exp.unwrap() <= usize::MAX),
            r matches Some(c) ==> c.sub@ == sub.unwrap()@ && c.exp == exp.unwrap(),
    {
        match (sub, exp) {
            (Some(sub), Some(exp)) => {
                if exp <= usize::MAX as u64 {
                    Some(Claims { sub, exp: exp as usize })
                } else {
                    None
                }
            },
            _ => None,
        }
    }
}

/// A JWT transaction representation.
pub struct Jwt {
    /// An encoding key for transfer
    encoding_key: HmacEncodingKey,
    /// A decoding key for receipt
    decoding_key: jsonwebtoken::DecodingKey,
}

impl Jwt {
    /// Attempts to create a new JWT representation from a given base64 secret. It fails,
    /// with the key library's error, when the secret is not accepted.
    pub fn new(secret: &str) -> (r: Result<Self, jsonwebtoken::errors::Error>)
        ensures
            r is Ok <==> encoding_secret_accepted(secret@) && decoding_secret_accepted(secret@),
    {
        let encoding_key = match encoding_key_from_base64_secret(secret) {
            Ok(key) => key,
            Err(e) => return Err(e),
        };
        let decoding_key = match decoding_key_from_base64_secret(secret) {
            Ok(key) => key,
            Err(e) => return Err(e),
        };
        Ok(Jwt { encoding_key, decoding_key })
    }

    /// Encodes a token for `sub`, expiring a day from now: the token carries the claims
    /// `sub` and the expiry a day after a time read from the clock. Signing with the HMAC
    /// key cannot fail; a failure of the signing library would be reported as
    /// [`JwtError::Unknown`].
    pub fn encode(&self, sub: String) -> (r: Result<String, JwtError>)
        ensures
            r is Ok,
            r matches Ok(t) ==> is_fresh_token_for(t@, sub@, JWT_EXPIRY_IN_DAYS as int),
    {
        let ghost sub_text = sub@;
        let claims = Claims::new(sub);
        let ghost now = choose|now: int|
            EARLIEST_SECONDS <= now <= LATEST_SECONDS && claims.exp == expiry_for(now, JWT_EXPIRY_IN_DAYS as int);
        match encode_token(claims.sub.as_str(), claims.exp, &self.encoding_key) {
            Ok(token) => {
                assert(is_token_for(token@, sub_text, expiry_for(now, JWT_EXPIRY_IN_DAYS as int)));
                Ok(token)
            },
            Err(_e) => Err(JwtError::Unknown),
        }
    }

    /// Decodes a given token received: the claims it returns are those the token carries.
    /// A token that fails to check, or whose claims are not a string `sub` and a `usize`
    /// `exp`, is reported as [`JwtError::InvalidShape`].
    pub fn decode(&self, token: &str) -> (r: Result<Claims, JwtError>)
        ensures
            r matches Err(e) ==> e == JwtError::InvalidShape,
            r is Ok ==> has_token_separators(token@),
            r matches Ok(c) ==> carries_claims(token@, c.sub@, c.exp as u64),
    {
        match decode_token(token, &self.decoding_key) {
            Ok(fields) => {
                let (sub, exp) = fields;
                match Claims::from_fields(sub, exp) {
                    Some(claims) => Ok(claims),
                    None => Err(JwtError::InvalidShape),
                }
            },
            Err(_e) => Err(JwtError::InvalidShape),
        }
    }
}

} // verus!

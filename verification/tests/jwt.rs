use ratings::jwt::{Claims as TokenClaims, JwtEncoder, JwtVerifier, TokenError};
use ratings::status::{Code, Status};
use ratings::utils::jwt::{Claims, Jwt, JwtError};

const SECRET: &str = "c2VjcmV0LWZvci10ZXN0aW5nLXRva2Vucw==";

fn now() -> i64 {
    std::time::SystemTime::now().duration_since(std::time::UNIX_EPOCH).unwrap().as_secs() as i64
}

fn base64url_decode(s: &str) -> Vec<u8> {
    let alphabet = b"ABCDEFGHIJKLMNOPQRSTUVWXYZabcdefghijklmnopqrstuvwxyz0123456789-_";
    let mut bits: u32 = 0;
    let mut n = 0;
    let mut out = Vec::new();
    for c in s.bytes() {
        let v = alphabet.iter().position(|&a| a == c).unwrap() as u32;
        bits = (bits << 6) | v;
        n += 6;
        if n >= 8 {
            n -= 8;
            out.push((bits >> n) as u8);
            bits &= (1 << n) - 1;
        }
    }
    out
}

#[test]
fn claims_expire_a_day_after_issue() {
    let c = Claims::issued_at("me".to_string(), 1_700_000_000);
    assert_eq!(c.sub, "me");
    assert_eq!(c.exp, 1_700_086_400);
    let c = TokenClaims::issued_at("you".to_string(), 0);
    assert_eq!(c.exp, 86_400);
    let c = Claims::new("now".to_string());
    let expected = (now() + 86_400) as usize;
    assert!(c.exp + 5 >= expected && c.exp <= expected + 5);
}

#[test]
fn jwt_round_trip() {
    let jwt = Jwt::new(SECRET).ok().unwrap();
    let token = jwt.encode("subject-1".to_string()).unwrap();
    let claims = jwt.decode(&token).unwrap();
    assert_eq!(claims.sub, "subject-1");
    let expected = (now() + 86_400) as usize;
    assert!(claims.exp + 5 >= expected && claims.exp <= expected + 5);
    let payload = String::from_utf8(base64url_decode(token.split('.').nth(1).unwrap())).unwrap();
    assert_eq!(payload, format!("{{\"sub\":\"subject-1\",\"exp\":{}}}", claims.exp));
    assert_eq!(jwt.decode("not.a.token").unwrap_err(), JwtError::InvalidShape);
    let other = Jwt::new("b3RoZXItc2VjcmV0").ok().unwrap();
    assert_eq!(other.decode(&token).unwrap_err(), JwtError::InvalidShape);
    assert!(Jwt::new("not base64!").is_err());
    assert_eq!(JwtError::InvalidShape.message(), "jwt: invalid shape");
    assert_eq!(JwtError::Unknown.message(), "jwt: unknown error");
}

#[test]
fn encoder_and_verifier_round_trip() {
    let encoder = JwtEncoder::from_secret(SECRET).ok().unwrap();
    let verifier = JwtVerifier::from_secret(SECRET).ok().unwrap();
    let token = encoder.encode("client".to_string()).ok().unwrap();
    let claims = verifier.decode(&token).ok().unwrap();
    assert_eq!(claims.sub, "client");
    assert!(matches!(verifier.decode("garbage"), Err(TokenError::InvalidShape)));
    assert!(matches!(JwtEncoder::from_secret("%%%"), Err(TokenError::DecodeSecretError(_))));
    assert!(matches!(JwtVerifier::from_secret("%%%"), Err(TokenError::DecodeSecretError(_))));
}

#[test]
fn token_errors_to_status() {
    let s = TokenError::InvalidHeader.into_status();
    assert_eq!((s.code, s.message.as_str()), (Code::Unauthenticated, "invalid authz header"));
    let s = TokenError::Erased.into_status();
    assert_eq!((s.code, s.message.as_str()), (Code::Internal, "Internal Server Error"));
    let s = TokenError::TonicStatus(Status::not_found("gone")).into_status();
    assert_eq!((s.code, s.message.as_str()), (Code::NotFound, "gone"));
    let bad = match JwtVerifier::from_secret("%%%") {
        Err(e) => e,
        Ok(_) => panic!("secret accepted"),
    };
    let s = bad.into_status();
    assert_eq!((s.code, s.message.as_str()), (Code::Unauthenticated, "invalid JWT token"));
}

#[test]
fn claims_from_token_fields() {
    let c = Claims::from_fields(Some(String::from("user")), Some(1_700_000_000)).unwrap();
    assert_eq!(c.sub, "user");
    assert_eq!(c.exp, 1_700_000_000);
    assert!(Claims::from_fields(None, Some(5)).is_none());
    assert!(Claims::from_fields(Some(String::from("user")), None).is_none());
    let t = TokenClaims::from_fields(Some(String::from("abc")), Some(42)).unwrap();
    assert_eq!(t.sub, "abc");
    assert_eq!(t.exp, 42);
    assert!(TokenClaims::from_fields(None, None).is_none());
}

#[test]
fn tokens_have_three_parts() {
    let jwt = Jwt::new(SECRET).ok().unwrap();
    let token = jwt.encode(String::from("someone")).unwrap();
    assert_eq!(token.matches('.').count(), 2);
    assert!(matches!(jwt.decode("nodots"), Err(JwtError::InvalidShape)));
    assert!(matches!(jwt.decode("one.dot"), Err(JwtError::InvalidShape)));
    let encoder = JwtEncoder::from_secret(SECRET).ok().unwrap();
    let verifier = JwtVerifier::from_secret(SECRET).ok().unwrap();
    let token = encoder.encode(String::from("someone")).ok().unwrap();
    assert_eq!(token.matches('.').count(), 2);
    assert!(matches!(verifier.decode("nodots"), Err(TokenError::InvalidShape)));
    assert!(matches!(verifier.decode(""), Err(TokenError::InvalidShape)));
}

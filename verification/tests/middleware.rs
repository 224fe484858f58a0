use ratings::jwt::{JwtEncoder, JwtVerifier};
use ratings::middleware::{authorization_token, authorize, is_public, PUBLIC_PATHS};
use ratings::service::auth::{is_valid_token, require_auth};
use ratings::status::Code;

const SECRET: &str = "c2VjcmV0LWZvci10ZXN0aW5nLXRva2Vucw==";

#[test]
fn public_paths_need_nothing() {
    assert_eq!(PUBLIC_PATHS, ["ratings.features.user.User/Authenticate"]);
    assert!(is_public("/ratings.features.user.User/Authenticate"));
    assert!(!is_public("/ratings.features.user.User/Vote"));
    assert_eq!(authorization_token("/ratings.features.user.User/Authenticate", None).ok().unwrap(), None);
}

#[test]
fn headers_are_checked() {
    let e = authorization_token("/x.Y/Z", None).unwrap_err();
    assert_eq!((e.code, e.message.as_str()), (Code::Unauthenticated, "missing auth header"));
    let e = authorization_token("/x.Y/Z", Some("Bearer")).unwrap_err();
    assert_eq!(e.message, "malformed auth header");
    let e = authorization_token("/x.Y/Z", Some("Bearer a b")).unwrap_err();
    assert_eq!(e.message, "malformed auth header");
    assert_eq!(authorization_token("/x.Y/Z", Some("  Bearer   abc ")).ok().unwrap(), Some("abc".to_string()));
}

#[test]
fn tokens_are_verified() {
    let verifier = JwtVerifier::from_secret(SECRET).ok().unwrap();
    let token = JwtEncoder::from_secret(SECRET).ok().unwrap().encode("me".to_string()).ok().unwrap();
    let header = format!("Bearer {token}");
    let claims = authorize(&verifier, "/x.Y/Z", Some(&header)).ok().unwrap().unwrap();
    assert_eq!(claims.sub, "me");
    let e = authorize(&verifier, "/x.Y/Z", Some("Bearer forged")).unwrap_err();
    assert_eq!((e.code, e.message.as_str()), (Code::Unauthenticated, "invalid auth header"));
    assert!(authorize(&verifier, "/ratings.features.user.User/Authenticate", None).ok().unwrap().is_none());
}

#[test]
fn interceptor_requires_a_header() {
    assert!(is_valid_token(""));
    assert!(require_auth(Some("anything")).is_ok());
    let e = require_auth(None).unwrap_err();
    assert_eq!((e.code, e.message.as_str()), (Code::Unauthenticated, "Missing authorization header"));
}

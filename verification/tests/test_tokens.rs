use actix_jwt_auth_middleware::{
    Algorithm, AuthError, Authority, Clock, Cookie, CookieSigner, Field, ParseError, Reauthorization,
    ServiceRequest, TimeOptions, ValidationError,
};

use actix_web::http::header::{HeaderName, HeaderValue};

const KEY: &[u8] = b"a-key-that-only-the-tests-know";

fn test_claims() -> serde_json::Value {
    serde_json::Value::Object(serde_json::Map::new())
}

fn time_options() -> TimeOptions {
    TimeOptions::from_leeway(0)
}

fn cookie_signer() -> CookieSigner {
    CookieSigner::new()
        .algorithm(Algorithm::Hs256)
        .signing_key(KEY.to_vec())
        .build()
        .unwrap()
}

fn request() -> ServiceRequest {
    ServiceRequest::new(String::new())
}

fn with_cookie(mut request: ServiceRequest, cookie: Cookie) -> ServiceRequest {
    request.cookies.push(Field { name: cookie.name, value: cookie.value });
    request
}

fn with_header(mut request: ServiceRequest, name: &str, value: &str) -> ServiceRequest {
    request.headers.append(
        HeaderName::from_bytes(name.as_bytes()).unwrap(),
        HeaderValue::from_str(value).unwrap(),
    );
    request
}

#[test]
fn valid_access_token() {
    let authority = Authority::new()
        .algorithm(Algorithm::Hs256)
        .verifying_key(KEY.to_vec())
        .time_options(time_options())
        .build()
        .unwrap();

    let req = with_cookie(
        request(),
        cookie_signer().create_access_token_cookie(&test_claims()).unwrap(),
    );

    assert!(authority.verify_service_request(&req, Reauthorization::Approved).is_ok())
}

#[test]
fn valid_access_token_header() {
    let authority = Authority::new()
        .algorithm(Algorithm::Hs256)
        .verifying_key(KEY.to_vec())
        .time_options(time_options())
        .enable_header_tokens(true)
        .build()
        .unwrap();

    let cookie = cookie_signer().create_access_token_cookie(&test_claims()).unwrap();

    let req = with_header(request(), &cookie.name, &cookie.value);

    assert!(authority.verify_service_request(&req, Reauthorization::Approved).is_ok())
}

#[test]
fn deactivated_access_token_header() {
    let authority = Authority::new()
        .algorithm(Algorithm::Hs256)
        .verifying_key(KEY.to_vec())
        .time_options(time_options())
        .build()
        .unwrap();

    let cookie = cookie_signer().create_access_token_cookie(&test_claims()).unwrap();

    let req = with_header(request(), &cookie.name, &cookie.value);

    assert_eq!(
        authority
            .verify_service_request(&req, Reauthorization::Approved)
            .expect_err("Testing no token case"),
        AuthError::NoToken
    )
}

#[test]
fn valid_refresh_token() {
    let authority = Authority::new()
        .verifying_key(KEY.to_vec())
        .token_signer(Some(cookie_signer()))
        .build()
        .unwrap();

    let req = with_cookie(
        request(),
        cookie_signer().create_refresh_token_cookie(&test_claims()).unwrap(),
    );

    assert!(authority.verify_service_request(&req, Reauthorization::Approved).is_ok())
}

#[test]
fn no_token() {
    let authority = Authority::new()
        .algorithm(Algorithm::Hs256)
        .verifying_key(KEY.to_vec())
        .time_options(time_options())
        .build()
        .unwrap();

    let req = request();

    assert_eq!(
        authority
            .verify_service_request(&req, Reauthorization::Approved)
            .expect_err("Testing no token case"),
        AuthError::NoToken
    )
}

#[test]
fn expired_token() {
    let authority = Authority::new()
        .algorithm(Algorithm::Hs256)
        .time_options(TimeOptions::new(0, Clock::Shifted(5 * 60)))
        .verifying_key(KEY.to_vec())
        .renew_access_token_automatically(false)
        .build()
        .unwrap();

    let req = with_cookie(
        request(),
        cookie_signer().create_access_token_cookie(&test_claims()).unwrap(),
    );

    let err = authority
        .verify_service_request(&req, Reauthorization::Approved)
        .expect_err("Testing expired token case");
    assert_eq!(err, AuthError::TokenValidation(ValidationError::Expired));
    assert!(matches!(err, AuthError::TokenValidation(ValidationError::Expired)));
}

#[test]
fn nonce_token() {
    let authority = Authority::new()
        .algorithm(Algorithm::Hs256)
        .time_options(TimeOptions::new(0, Clock::Shifted(5 * 60)))
        .verifying_key(KEY.to_vec())
        .renew_access_token_automatically(false)
        .build()
        .unwrap();

    let req = with_cookie(
        request(),
        Cookie { name: "access_token".to_string(), value: "not-a-valid-token".to_string(), secure: false },
    );

    let err = authority
        .verify_service_request(&req, Reauthorization::Approved)
        .expect_err("Testing not parsable token case");
    assert_eq!(err, AuthError::TokenParse(ParseError::InvalidTokenStructure));
    assert!(matches!(err, AuthError::TokenParse(ParseError::InvalidTokenStructure)));
}

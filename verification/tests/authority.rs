use actix_jwt_auth_middleware::authority::{
    access_step, carry_out, cookies_to_set, reauthorization_result, renewal_plan, select_sources,
};
use actix_jwt_auth_middleware::validate::validate_jwt_at;
use actix_jwt_auth_middleware::{
    AccessStep, Algorithm, AuthError, Authority, BuilderError, Claims, Clock, Cookie, CreationError,
    EnabledSources, Field, ParseError, Plan, Presented, Reauthorization, Rejection, RequiredField,
    ServiceRequest, TimeOptions, TokenSigner, TokenSource, TokenUpdate, ValidationError,
};

use actix_web::http::header::{HeaderName, HeaderValue};

const KEY: &[u8] = b"a-key-that-only-the-tests-know";
const ISSUED: i64 = 1_700_000_000;

fn empty_object() -> serde_json::Value {
    serde_json::Value::Object(serde_json::Map::new())
}

fn user(id: u64) -> serde_json::Value {
    let mut map = serde_json::Map::new();
    map.insert("id".to_string(), serde_json::Value::from(id));
    serde_json::Value::Object(map)
}

fn claims(id: u64) -> Claims {
    Claims::issued(user(id), ISSUED, 60)
}

fn rejection() -> Rejection {
    Rejection { status: 403, reason: "account is locked".to_string() }
}

/// A signer whose clock stands at `ISSUED`: access tokens hold for 60
/// seconds, refresh tokens for 1800.
fn signer() -> TokenSigner {
    TokenSigner::new()
        .algorithm(Algorithm::Hs256)
        .signing_key(KEY.to_vec())
        .time_options(TimeOptions::new(0, Clock::Fixed(ISSUED)))
        .build()
        .unwrap()
}

fn cookie_request(cookies: Vec<Cookie>) -> ServiceRequest {
    let mut request = ServiceRequest::new(String::new());
    for cookie in cookies {
        request.cookies.push(Field { name: cookie.name, value: cookie.value });
    }
    request
}

fn authority_at(now: i64) -> actix_jwt_auth_middleware::AuthorityBuilder {
    Authority::new()
        .algorithm(Algorithm::Hs256)
        .verifying_key(KEY.to_vec())
        .time_options(TimeOptions::new(0, Clock::Fixed(now)))
}

#[test]
fn token_five_seconds_old_is_accepted_without_renewal() {
    let authority = authority_at(ISSUED + 5).build().unwrap();
    let request = cookie_request(vec![signer().create_access_cookie(&empty_object()).unwrap()]);
    let authorized = authority.verify_service_request(&request, Reauthorization::Approved).unwrap();
    assert_eq!(authorized.token_update, None);
    assert_eq!(authorized.claims, empty_object());
}

#[test]
fn token_sixty_five_seconds_old_is_expired_without_renewal() {
    let authority = authority_at(ISSUED + 65).renew_access_token_automatically(false).build().unwrap();
    let request = cookie_request(vec![signer().create_access_cookie(&empty_object()).unwrap()]);
    let err = authority.verify_service_request(&request, Reauthorization::Approved).unwrap_err();
    assert!(matches!(err, AuthError::TokenValidation(ValidationError::Expired)));
}

#[test]
fn request_without_any_token_fails_with_no_token() {
    for renew in [false, true] {
        let authority = authority_at(ISSUED)
            .renew_access_token_automatically(renew)
            .enable_query_tokens(true)
            .enable_header_tokens(true)
            .enable_authorization_header(true)
            .token_signer(Some(signer()))
            .build()
            .unwrap();
        let request = ServiceRequest::new(String::new());
        let err = authority.verify_service_request(&request, Reauthorization::Approved).unwrap_err();
        assert!(matches!(err, AuthError::NoToken));
    }
}

#[test]
fn malformed_token_fails_with_invalid_structure() {
    let authority = authority_at(ISSUED).build().unwrap();
    let request = cookie_request(vec![Cookie {
        name: "access_token".to_string(),
        value: "not-a-valid-token".to_string(),
        secure: true,
    }]);
    let err = authority.verify_service_request(&request, Reauthorization::Approved).unwrap_err();
    assert!(matches!(err, AuthError::TokenParse(ParseError::InvalidTokenStructure)));
}

#[test]
fn badly_encoded_token_fails_with_invalid_structure() {
    for renew in [false, true] {
        let authority = authority_at(ISSUED)
            .renew_access_token_automatically(renew)
            .token_signer(Some(signer()))
            .build()
            .unwrap();
        let request = cookie_request(vec![
            Cookie { name: "access_token".to_string(), value: "!!!.???.***".to_string(), secure: true },
            signer().create_refresh_cookie(&user(1)).unwrap(),
        ]);
        let err = authority.verify_service_request(&request, Reauthorization::Approved).unwrap_err();
        assert!(matches!(err, AuthError::TokenParse(ParseError::InvalidTokenStructure)));
    }
}

#[test]
fn malformed_refresh_token_fails_with_invalid_structure() {
    let authority = authority_at(ISSUED).token_signer(Some(signer())).build().unwrap();
    for value in ["not-a-valid-token", "!!!.???.***"] {
        let request = cookie_request(vec![Cookie {
            name: "refresh_token".to_string(),
            value: value.to_string(),
            secure: true,
        }]);
        let err = authority.verify_service_request(&request, Reauthorization::Approved).unwrap_err();
        assert!(matches!(err, AuthError::TokenParse(ParseError::InvalidTokenStructure)));
    }
}

#[test]
fn token_at_the_last_second_of_its_life_is_accepted() {
    let request = cookie_request(vec![signer().create_access_cookie(&empty_object()).unwrap()]);
    let on_time = authority_at(ISSUED + 60).renew_access_token_automatically(false).build().unwrap();
    assert!(on_time.verify_service_request(&request, Reauthorization::Approved).is_ok());
    let late = authority_at(ISSUED + 61).renew_access_token_automatically(false).build().unwrap();
    assert!(late.verify_service_request(&request, Reauthorization::Approved).is_err());
}

#[test]
fn leeway_extends_the_life_of_a_token() {
    let request = cookie_request(vec![signer().create_access_cookie(&empty_object()).unwrap()]);
    let lenient = Authority::new()
        .algorithm(Algorithm::Hs256)
        .verifying_key(KEY.to_vec())
        .time_options(TimeOptions::new(10, Clock::Fixed(ISSUED + 70)))
        .renew_access_token_automatically(false)
        .build()
        .unwrap();
    assert!(lenient.verify_service_request(&request, Reauthorization::Approved).is_ok());
    let strict = Authority::new()
        .algorithm(Algorithm::Hs256)
        .verifying_key(KEY.to_vec())
        .time_options(TimeOptions::new(10, Clock::Fixed(ISSUED + 71)))
        .renew_access_token_automatically(false)
        .build()
        .unwrap();
    assert!(strict.verify_service_request(&request, Reauthorization::Approved).is_err());
}

#[test]
fn denied_hook_stops_the_renewal() {
    let authority = authority_at(ISSUED + 65).token_signer(Some(signer())).build().unwrap();
    let request = cookie_request(vec![
        signer().create_access_cookie(&user(1)).unwrap(),
        signer().create_refresh_cookie(&user(1)).unwrap(),
    ]);
    let result = authority.verify_service_request(&request, Reauthorization::Denied(rejection()));
    match result {
        Err(AuthError::RefreshAuthorizerDenied(reason)) => assert_eq!(reason, rejection()),
        other => panic!("expected the hook's refusal, got {:?}", other),
    }
}

#[test]
fn denied_hook_stops_the_renewal_of_a_missing_access_token() {
    let authority = authority_at(ISSUED)
        .renew_refresh_token_automatically(true)
        .token_signer(Some(signer()))
        .build()
        .unwrap();
    let request = cookie_request(vec![signer().create_refresh_cookie(&user(1)).unwrap()]);
    let result = authority.verify_service_request(&request, Reauthorization::Denied(rejection()));
    assert!(matches!(result, Err(AuthError::RefreshAuthorizerDenied(_))));
}

#[test]
fn hook_is_not_consulted_for_a_valid_access_token() {
    let authority = authority_at(ISSUED).token_signer(Some(signer())).build().unwrap();
    let request = cookie_request(vec![signer().create_access_cookie(&user(1)).unwrap()]);
    let authorized =
        authority.verify_service_request(&request, Reauthorization::Denied(rejection())).unwrap();
    assert_eq!(authorized.claims, user(1));
    assert_eq!(authorized.token_update, None);
}

#[test]
fn failed_hook_call_is_reported_as_such() {
    let authority = authority_at(ISSUED).token_signer(Some(signer())).build().unwrap();
    let request = cookie_request(vec![signer().create_refresh_cookie(&user(1)).unwrap()]);
    let result = authority.verify_service_request(&request, Reauthorization::CallFailed(rejection()));
    match result {
        Err(AuthError::RefreshAuthorizerCall(reason)) => assert_eq!(reason, rejection()),
        other => panic!("expected the failed call, got {:?}", other),
    }
}

#[test]
fn renewal_issues_an_access_token_for_the_claims_of_the_refresh_token() {
    let authority = authority_at(ISSUED + 65).token_signer(Some(signer())).build().unwrap();
    let request = cookie_request(vec![
        signer().create_access_cookie(&user(1)).unwrap(),
        signer().create_refresh_cookie(&user(2)).unwrap(),
    ]);
    let authorized = authority.verify_service_request(&request, Reauthorization::Approved).unwrap();
    assert_eq!(authorized.claims, user(2));
    let update = authorized.token_update.unwrap();
    assert_eq!(update.refresh_cookie, None);
    let access = update.access_cookie.unwrap();
    assert_eq!(access.name, "access_token");
    assert!(access.secure);
    let renewed = validate_jwt_at(&access.value, Algorithm::Hs256, KEY, 0, ISSUED).unwrap();
    assert_eq!(renewed.custom, user(2));
    assert_eq!(renewed.issued_at, Some(ISSUED));
    assert_eq!(renewed.expiration, Some(ISSUED + 60));
    assert_eq!(access, signer().create_access_cookie(&user(2)).unwrap());
}

#[test]
fn renewal_works_without_an_access_token() {
    let authority = authority_at(ISSUED).token_signer(Some(signer())).build().unwrap();
    let request = cookie_request(vec![signer().create_refresh_cookie(&user(9)).unwrap()]);
    let authorized = authority.verify_service_request(&request, Reauthorization::Approved).unwrap();
    assert_eq!(authorized.claims, user(9));
    let update = authorized.token_update.unwrap();
    assert!(update.access_cookie.is_some());
    assert!(update.refresh_cookie.is_none());
}

#[test]
fn renewal_without_a_signer_fails() {
    let authority = authority_at(ISSUED + 65).build().unwrap();
    let request = cookie_request(vec![
        signer().create_access_cookie(&user(1)).unwrap(),
        signer().create_refresh_cookie(&user(1)).unwrap(),
    ]);
    let err = authority.verify_service_request(&request, Reauthorization::Approved).unwrap_err();
    assert!(matches!(err, AuthError::NoTokenSigner));
}

#[test]
fn expired_refresh_token_is_not_renewed_by_default() {
    let authority = authority_at(ISSUED + 5_000).token_signer(Some(signer())).build().unwrap();
    let request = cookie_request(vec![
        signer().create_access_cookie(&user(1)).unwrap(),
        signer().create_refresh_cookie(&user(1)).unwrap(),
    ]);
    let err = authority.verify_service_request(&request, Reauthorization::Approved).unwrap_err();
    assert!(matches!(err, AuthError::TokenValidation(ValidationError::Expired)));
}

#[test]
fn expired_refresh_token_renews_both_tokens_where_enabled() {
    let authority = authority_at(ISSUED + 5_000)
        .renew_refresh_token_automatically(true)
        .token_signer(Some(signer()))
        .build()
        .unwrap();
    let request = cookie_request(vec![
        signer().create_access_cookie(&user(1)).unwrap(),
        signer().create_refresh_cookie(&user(2)).unwrap(),
    ]);
    let authorized = authority.verify_service_request(&request, Reauthorization::Approved).unwrap();
    // the claims are those of the expired access token
    assert_eq!(authorized.claims, user(1));
    let update = authorized.token_update.unwrap();
    let access = update.access_cookie.unwrap();
    let refresh = update.refresh_cookie.unwrap();
    assert_eq!(access.name, "access_token");
    assert_eq!(refresh.name, "refresh_token");
    let new_access = validate_jwt_at(&access.value, Algorithm::Hs256, KEY, 0, ISSUED).unwrap();
    assert_eq!(new_access.custom, user(1));
    assert_eq!(new_access.expiration, Some(ISSUED + 60));
    let new_refresh = validate_jwt_at(&refresh.value, Algorithm::Hs256, KEY, 0, ISSUED).unwrap();
    assert_eq!(new_refresh.custom, user(1));
    assert_eq!(new_refresh.expiration, Some(ISSUED + 1_800));
}

#[test]
fn expired_refresh_token_alone_renews_both_tokens_from_its_own_claims() {
    let authority = authority_at(ISSUED + 5_000)
        .renew_refresh_token_automatically(true)
        .token_signer(Some(signer()))
        .build()
        .unwrap();
    let request = cookie_request(vec![signer().create_refresh_cookie(&user(2)).unwrap()]);
    let authorized = authority.verify_service_request(&request, Reauthorization::Approved).unwrap();
    assert_eq!(authorized.claims, user(2));
    let update = authorized.token_update.unwrap();
    assert!(update.access_cookie.is_some());
    assert!(update.refresh_cookie.is_some());
}

#[test]
fn expired_refresh_token_without_signer_fails_for_the_signer() {
    let authority =
        authority_at(ISSUED + 5_000).renew_refresh_token_automatically(true).build().unwrap();
    let request = cookie_request(vec![signer().create_refresh_cookie(&user(2)).unwrap()]);
    let err = authority.verify_service_request(&request, Reauthorization::Approved).unwrap_err();
    assert!(matches!(err, AuthError::NoTokenSigner));
}

#[test]
fn forged_refresh_token_is_refused() {
    let authority = authority_at(ISSUED).token_signer(Some(signer())).build().unwrap();
    let forger = TokenSigner::new()
        .algorithm(Algorithm::Hs256)
        .signing_key(b"another key".to_vec())
        .time_options(TimeOptions::new(0, Clock::Fixed(ISSUED)))
        .build()
        .unwrap();
    let request = cookie_request(vec![forger.create_refresh_cookie(&user(1)).unwrap()]);
    let err = authority.verify_service_request(&request, Reauthorization::Approved).unwrap_err();
    assert!(matches!(err, AuthError::TokenValidation(ValidationError::InvalidSignature)));
}

#[test]
fn forged_access_token_is_refused_without_asking_the_hook() {
    let authority = authority_at(ISSUED).token_signer(Some(signer())).build().unwrap();
    let forger = TokenSigner::new()
        .algorithm(Algorithm::Hs256)
        .signing_key(b"another key".to_vec())
        .time_options(TimeOptions::new(0, Clock::Fixed(ISSUED)))
        .build()
        .unwrap();
    let request = cookie_request(vec![
        forger.create_access_cookie(&user(1)).unwrap(),
        signer().create_refresh_cookie(&user(1)).unwrap(),
    ]);
    let err = authority.verify_service_request(&request, Reauthorization::Denied(rejection())).unwrap_err();
    assert!(matches!(err, AuthError::TokenValidation(ValidationError::InvalidSignature)));
}

#[test]
fn verify_at_takes_its_instants_from_the_caller() {
    let authority = Authority::new().verifying_key(KEY.to_vec()).token_signer(Some(signer())).build().unwrap();
    let request = cookie_request(vec![
        signer().create_access_cookie(&user(1)).unwrap(),
        signer().create_refresh_cookie(&user(1)).unwrap(),
    ]);
    let early = authority
        .verify_service_request_at(&request, Reauthorization::Approved, ISSUED + 60, 0)
        .unwrap();
    assert_eq!(early.token_update, None);
    let late = authority
        .verify_service_request_at(&request, Reauthorization::Approved, ISSUED + 61, 5_000)
        .unwrap();
    let access = late.token_update.unwrap().access_cookie.unwrap();
    let renewed = validate_jwt_at(&access.value, Algorithm::Hs256, KEY, 0, 5_000).unwrap();
    assert_eq!(renewed.issued_at, Some(5_000));
    assert_eq!(renewed.expiration, Some(5_060));
}

#[test]
fn two_steps_give_what_one_call_gives() {
    let authority = authority_at(ISSUED + 65).token_signer(Some(signer())).build().unwrap();
    let request = cookie_request(vec![
        signer().create_access_cookie(&user(1)).unwrap(),
        signer().create_refresh_cookie(&user(2)).unwrap(),
    ]);
    let stale = match authority.check_access_at(&request, ISSUED + 65) {
        AccessStep::Reauthorize(stale) => stale,
        other => panic!("expected the hook to be asked, got {:?}", other),
    };
    assert_eq!(stale.as_ref().map(|c| c.custom.clone()), Some(user(1)));
    let stepwise = authority
        .refresh_at(&request, stale, Reauthorization::Approved, ISSUED + 65, ISSUED)
        .unwrap();
    let at_once = authority.verify_service_request(&request, Reauthorization::Approved).unwrap();
    assert_eq!(stepwise, at_once);
}

#[test]
fn tokens_are_looked_for_in_the_enabled_sources_only() {
    let token = signer().create_access_cookie(&user(1)).unwrap().value;
    let mut request = ServiceRequest::new(format!("access_token={}", token));
    request.headers.append(
        HeaderName::from_static("access_token"),
        HeaderValue::from_str(&token).unwrap(),
    );
    request.headers.append(
        HeaderName::from_static("authorization"),
        HeaderValue::from_str(&format!("Bearer {}", token)).unwrap(),
    );

    let cookies_only = authority_at(ISSUED).renew_access_token_automatically(false).build().unwrap();
    assert!(matches!(
        cookies_only.verify_service_request(&request, Reauthorization::Approved),
        Err(AuthError::NoToken)
    ));
    let with_query = authority_at(ISSUED).enable_query_tokens(true).build().unwrap();
    assert!(with_query.verify_service_request(&request, Reauthorization::Approved).is_ok());
    let with_header = authority_at(ISSUED).enable_header_tokens(true).build().unwrap();
    assert!(with_header.verify_service_request(&request, Reauthorization::Approved).is_ok());
    let with_bearer = authority_at(ISSUED).enable_authorization_header(true).build().unwrap();
    assert!(with_bearer.verify_service_request(&request, Reauthorization::Approved).is_ok());
}

#[test]
fn higher_source_wins_even_with_a_worse_token() {
    let good = signer().create_access_cookie(&user(1)).unwrap();
    let mut request = cookie_request(vec![good]);
    request.query = "access_token=not-a-valid-token".to_string();
    let authority =
        authority_at(ISSUED).enable_query_tokens(true).renew_access_token_automatically(false).build().unwrap();
    assert!(matches!(
        authority.verify_service_request(&request, Reauthorization::Approved),
        Err(AuthError::TokenParse(ParseError::InvalidTokenStructure))
    ));
    let cookie_first = authority_at(ISSUED)
        .enable_query_tokens(true)
        .precedence(vec![TokenSource::Cookie, TokenSource::Query])
        .build()
        .unwrap();
    assert!(cookie_first.verify_service_request(&request, Reauthorization::Approved).is_ok());
}

#[test]
fn bearer_value_of_the_signer_is_read_back() {
    let value = signer().create_bearer_header_value(&user(5)).unwrap();
    let mut request = ServiceRequest::new(String::new());
    request.headers.append(
        HeaderName::from_static("authorization"),
        HeaderValue::from_str(&value).unwrap(),
    );
    let authority = authority_at(ISSUED).enable_authorization_header(true).build().unwrap();
    let authorized = authority.verify_service_request(&request, Reauthorization::Approved).unwrap();
    assert_eq!(authorized.claims, user(5));
}

#[test]
fn builder_needs_the_verifying_key_first() {
    assert_eq!(
        Authority::new().build().unwrap_err(),
        BuilderError::UninitializedField(RequiredField::VerifyingKey)
    );
    assert_eq!(
        Authority::new().verifying_key(KEY.to_vec()).build().unwrap_err(),
        BuilderError::UninitializedField(RequiredField::Algorithm)
    );
    assert_eq!(
        Authority::new().verifying_key(KEY.to_vec()).algorithm(Algorithm::Hs384).build().unwrap_err(),
        BuilderError::UninitializedField(RequiredField::TimeOptions)
    );
}

#[test]
fn authority_builder_defaults() {
    let authority = authority_at(ISSUED).build().unwrap();
    assert_eq!(authority.access_token_name, "access_token");
    assert_eq!(authority.refresh_token_name, "refresh_token");
    assert!(authority.renew_access_token_automatically);
    assert!(!authority.renew_refresh_token_automatically);
    assert_eq!(authority.sources, vec![TokenSource::Cookie]);
    assert!(authority.token_signer().is_none());
}

#[test]
fn builder_takes_what_is_missing_from_the_signer() {
    let named = TokenSigner::new()
        .algorithm(Algorithm::Hs512)
        .signing_key(KEY.to_vec())
        .access_token_name("a".to_string())
        .refresh_token_name("r".to_string())
        .time_options(TimeOptions::new(3, Clock::Fixed(7)))
        .build()
        .unwrap();
    let authority = Authority::new().verifying_key(KEY.to_vec()).token_signer(Some(named)).build().unwrap();
    assert_eq!(authority.access_token_name, "a");
    assert_eq!(authority.refresh_token_name, "r");
    assert_eq!(authority.algorithm, Algorithm::Hs512);
    assert_eq!(authority.time_options, TimeOptions::new(3, Clock::Fixed(7)));
    assert_eq!(authority.token_signer().unwrap().access_token_name(), "a");
}

#[test]
fn builder_prefers_what_was_chosen_over_the_signer() {
    let authority = Authority::new()
        .verifying_key(KEY.to_vec())
        .token_signer(Some(signer()))
        .access_token_name("mine".to_string())
        .algorithm(Algorithm::Hs384)
        .time_options(TimeOptions::from_leeway(9))
        .build()
        .unwrap();
    assert_eq!(authority.access_token_name, "mine");
    assert_eq!(authority.refresh_token_name, "refresh_token");
    assert_eq!(authority.algorithm, Algorithm::Hs384);
    assert_eq!(authority.time_options, TimeOptions::from_leeway(9));
}

#[test]
fn sources_follow_the_default_order() {
    let authority = authority_at(ISSUED)
        .enable_cookie_tokens(true)
        .enable_authorization_header(true)
        .enable_header_tokens(true)
        .enable_query_tokens(true)
        .build()
        .unwrap();
    assert_eq!(
        authority.sources,
        vec![
            TokenSource::Query,
            TokenSource::Header,
            TokenSource::AuthorizationHeader,
            TokenSource::Cookie
        ]
    );
    let none = authority_at(ISSUED).enable_cookie_tokens(false).build().unwrap();
    assert!(none.sources.is_empty());
}

#[test]
fn select_sources_keeps_the_order_and_drops_what_is_off() {
    let enabled = EnabledSources { query: true, header: false, authorization_header: false, cookie: true };
    assert!(enabled.allows(TokenSource::Query));
    assert!(!enabled.allows(TokenSource::Header));
    assert_eq!(
        select_sources(&vec![TokenSource::Cookie, TokenSource::Header, TokenSource::Query], enabled),
        vec![TokenSource::Cookie, TokenSource::Query]
    );
    assert_eq!(select_sources(&Vec::new(), enabled), Vec::new());
}

#[test]
fn access_step_on_each_state() {
    assert!(matches!(access_step(Presented::Valid(claims(1)), true), AccessStep::Accept(_)));
    assert!(matches!(access_step(Presented::Valid(claims(1)), false), AccessStep::Accept(_)));
    assert!(matches!(access_step(Presented::Expired(claims(1)), true), AccessStep::Reauthorize(Some(_))));
    assert!(matches!(
        access_step(Presented::Expired(claims(1)), false),
        AccessStep::Reject(AuthError::TokenValidation(ValidationError::Expired))
    ));
    assert!(matches!(access_step(Presented::Missing, true), AccessStep::Reauthorize(None)));
    assert!(matches!(access_step(Presented::Missing, false), AccessStep::Reject(AuthError::NoToken)));
    for renew in [false, true] {
        assert!(matches!(
            access_step(Presented::Invalid(AuthError::TokenParse(ParseError::InvalidBase64Encoding)), renew),
            AccessStep::Reject(AuthError::TokenParse(ParseError::InvalidBase64Encoding))
        ));
    }
}

#[test]
fn reauthorization_result_on_each_answer() {
    assert!(reauthorization_result(Reauthorization::Approved).is_ok());
    assert!(matches!(
        reauthorization_result(Reauthorization::Denied(rejection())),
        Err(AuthError::RefreshAuthorizerDenied(_))
    ));
    assert!(matches!(
        reauthorization_result(Reauthorization::CallFailed(rejection())),
        Err(AuthError::RefreshAuthorizerCall(_))
    ));
}

#[test]
fn renewal_plan_on_each_state() {
    match renewal_plan(Some(claims(1)), Presented::Valid(claims(2)), false, true) {
        Plan::RenewAccess(c) => assert_eq!(c, claims(2)),
        other => panic!("{:?}", other),
    }
    assert!(matches!(
        renewal_plan(None, Presented::Valid(claims(2)), true, false),
        Plan::Reject(AuthError::NoTokenSigner)
    ));
    match renewal_plan(Some(claims(1)), Presented::Expired(claims(2)), true, true) {
        Plan::RenewBoth(c) => assert_eq!(c, claims(1)),
        other => panic!("{:?}", other),
    }
    match renewal_plan(None, Presented::Expired(claims(2)), true, true) {
        Plan::RenewBoth(c) => assert_eq!(c, claims(2)),
        other => panic!("{:?}", other),
    }
    assert!(matches!(
        renewal_plan(None, Presented::Expired(claims(2)), false, true),
        Plan::Reject(AuthError::TokenValidation(ValidationError::Expired))
    ));
    assert!(matches!(
        renewal_plan(None, Presented::Expired(claims(2)), true, false),
        Plan::Reject(AuthError::NoTokenSigner)
    ));
    assert!(matches!(renewal_plan(None, Presented::Missing, true, true), Plan::Reject(AuthError::NoToken)));
    assert!(matches!(
        renewal_plan(None, Presented::Invalid(AuthError::Unauthorized), true, true),
        Plan::Reject(AuthError::Unauthorized)
    ));
}

#[test]
fn carry_out_issues_what_the_plan_asks_for() {
    let with_signer = Some(signer());
    let accepted = carry_out(&with_signer, Plan::Accept(claims(1)), 0).unwrap();
    assert_eq!(accepted.claims, user(1));
    assert_eq!(accepted.token_update, None);

    assert!(matches!(
        carry_out(&with_signer, Plan::Reject(AuthError::NoToken), 0),
        Err(AuthError::NoToken)
    ));

    let renewed = carry_out(&with_signer, Plan::RenewAccess(claims(1)), 500).unwrap();
    let update = renewed.token_update.unwrap();
    assert_eq!(update.access_cookie, Some(signer().create_access_cookie_at(&user(1), 500).unwrap()));
    assert_eq!(update.refresh_cookie, None);

    let both = carry_out(&with_signer, Plan::RenewBoth(claims(1)), 500).unwrap();
    let update = both.token_update.unwrap();
    assert_eq!(update.access_cookie, Some(signer().create_access_cookie_at(&user(1), 500).unwrap()));
    assert_eq!(update.refresh_cookie, Some(signer().create_refresh_cookie_at(&user(1), 500).unwrap()));

    assert!(matches!(carry_out(&None, Plan::RenewAccess(claims(1)), 0), Err(AuthError::NoTokenSigner)));
    assert!(matches!(carry_out(&None, Plan::RenewBoth(claims(1)), 0), Err(AuthError::NoTokenSigner)));
}

#[test]
fn carry_out_reports_a_signer_that_fails() {
    let unsignable = Claims::issued(serde_json::Value::Array(Vec::new()), 0, 60);
    let result = carry_out(&Some(signer()), Plan::RenewAccess(unsignable), 0);
    assert!(matches!(result, Err(AuthError::TokenCreation(CreationError::Claims))));
}

#[test]
fn cookies_are_set_access_first() {
    let access = Cookie { name: "a".to_string(), value: "1".to_string(), secure: true };
    let refresh = Cookie { name: "r".to_string(), value: "2".to_string(), secure: true };
    assert_eq!(cookies_to_set(None), Vec::new());
    assert_eq!(
        cookies_to_set(Some(TokenUpdate { access_cookie: None, refresh_cookie: None })),
        Vec::new()
    );
    assert_eq!(
        cookies_to_set(Some(TokenUpdate { access_cookie: Some(access.clone()), refresh_cookie: None })),
        vec![access.clone()]
    );
    assert_eq!(
        cookies_to_set(Some(TokenUpdate { access_cookie: None, refresh_cookie: Some(refresh.clone()) })),
        vec![refresh.clone()]
    );
    assert_eq!(
        cookies_to_set(Some(TokenUpdate {
            access_cookie: Some(access.clone()),
            refresh_cookie: Some(refresh.clone())
        })),
        vec![access, refresh]
    );
}

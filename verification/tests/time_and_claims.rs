use actix_jwt_auth_middleware::time::{
    clamp, expiration_after, is_expired, MAX_TIMESTAMP, MIN_TIMESTAMP,
};
use actix_jwt_auth_middleware::{Claims, Clock, TimeOptions, ValidationError};

fn empty_object() -> serde_json::Value {
    serde_json::Value::Object(serde_json::Map::new())
}

#[test]
fn fixed_clock_stands_still() {
    assert_eq!(Clock::Fixed(1_234).now(), 1_234);
    assert_eq!(Clock::Fixed(1_234).now(), 1_234);
    assert_eq!(TimeOptions::new(3, Clock::Fixed(-5)).now(), -5);
}

#[test]
fn fixed_clock_beyond_the_last_instant_reads_the_last_instant() {
    assert_eq!(Clock::Fixed(i64::MAX).now(), MAX_TIMESTAMP);
    assert_eq!(Clock::Fixed(i64::MIN).now(), MIN_TIMESTAMP);
}

#[test]
fn system_clock_reads_a_plausible_instant() {
    let now = Clock::System.now();
    // after 2020 and before the year 3000
    assert!(now > 1_577_836_800);
    assert!(now < 32_503_680_000);
}

#[test]
fn shifted_clock_runs_ahead_of_the_system_clock() {
    let before = Clock::System.now();
    let shifted = Clock::Shifted(300).now();
    let after = Clock::System.now();
    assert!(before + 300 <= shifted);
    assert!(shifted <= after + 300);
    assert_eq!(Clock::Shifted(i64::MAX).now(), MAX_TIMESTAMP);
    assert_eq!(Clock::Shifted(i64::MIN).now(), MIN_TIMESTAMP);
}

#[test]
fn rounded_up_reading_is_the_same_second_or_the_next() {
    let before = Clock::System.now();
    let rounded = Clock::System.now_rounded_up();
    let after = Clock::System.now();
    assert!(before <= rounded);
    assert!(rounded <= after + 1);
    let shifted = Clock::Shifted(-100).now_rounded_up();
    assert!(before - 100 <= shifted);
    assert!(shifted <= Clock::System.now() + 1 - 100);
}

#[test]
fn rounded_up_reading_of_a_fixed_clock_is_its_second() {
    assert_eq!(Clock::Fixed(1_234).now_rounded_up(), 1_234);
    assert_eq!(TimeOptions::new(0, Clock::Fixed(-5)).now_rounded_up(), -5);
    assert_eq!(Clock::Fixed(i64::MAX).now_rounded_up(), MAX_TIMESTAMP);
    assert_eq!(Clock::Shifted(i64::MAX).now_rounded_up(), MAX_TIMESTAMP);
}

#[test]
fn time_options_default_to_a_minute_of_leeway_on_the_system_clock() {
    assert_eq!(TimeOptions::default(), TimeOptions { leeway: 60, clock: Clock::System });
    assert_eq!(TimeOptions::from_leeway(10), TimeOptions { leeway: 10, clock: Clock::System });
    assert_eq!(
        TimeOptions::new(10, Clock::Fixed(1)),
        TimeOptions { leeway: 10, clock: Clock::Fixed(1) }
    );
}

#[test]
fn clamp_keeps_representable_instants() {
    assert_eq!(clamp(0), 0);
    assert_eq!(clamp(MAX_TIMESTAMP), MAX_TIMESTAMP);
    assert_eq!(clamp(MAX_TIMESTAMP + 1), MAX_TIMESTAMP);
    assert_eq!(clamp(MIN_TIMESTAMP), MIN_TIMESTAMP);
    assert_eq!(clamp(MIN_TIMESTAMP - 1), MIN_TIMESTAMP);
}

#[test]
fn expiry_fails_exactly_beyond_expiration_plus_leeway() {
    assert!(!is_expired(100, 0, 100));
    assert!(is_expired(100, 0, 101));
    assert!(!is_expired(100, 20, 120));
    assert!(is_expired(100, 20, 121));
    assert!(!is_expired(i64::MAX, u64::MAX, i64::MAX));
    assert!(is_expired(i64::MIN, 0, i64::MIN + 1));
    assert!(!is_expired(i64::MIN, u64::MAX, i64::MAX));
}

#[test]
fn expiration_is_issue_plus_lifetime() {
    assert_eq!(expiration_after(1_000, 60), 1_060);
    assert_eq!(expiration_after(1_000, 0), 1_000);
    assert_eq!(expiration_after(-100, 60), -40);
}

#[test]
fn expiration_stops_at_the_last_instant() {
    assert_eq!(expiration_after(MAX_TIMESTAMP, 1), MAX_TIMESTAMP);
    assert_eq!(expiration_after(0, u64::MAX), MAX_TIMESTAMP);
    assert_eq!(expiration_after(i64::MAX, u64::MAX), MAX_TIMESTAMP);
    assert_eq!(expiration_after(i64::MIN, 10), MIN_TIMESTAMP + 10);
}

#[test]
fn issued_claims_are_stamped() {
    let claims = Claims::issued(empty_object(), 1_000, 60);
    assert_eq!(claims.issued_at, Some(1_000));
    assert_eq!(claims.expiration, Some(1_060));
    assert_eq!(claims.not_before, None);
    assert_eq!(claims.custom, empty_object());
}

#[test]
fn new_claims_carry_no_instants() {
    let claims = Claims::new(empty_object());
    assert_eq!(claims.issued_at, None);
    assert_eq!(claims.expiration, None);
    assert_eq!(claims.not_before, None);
}

#[test]
fn fresh_claims_hold_at_their_issue() {
    for (now, lifetime, leeway) in [(0, 0, 0), (1_000, 60, 0), (MAX_TIMESTAMP, 1, 0), (-7, 3, 9)] {
        let claims = Claims::issued(empty_object(), now, lifetime);
        assert_eq!(claims.validate_expiration(leeway, claims.issued_at.unwrap()), Ok(()));
    }
}

#[test]
fn claims_expire_one_second_after_the_leeway() {
    let claims = Claims::issued(empty_object(), 1_000, 60);
    assert_eq!(claims.validate_expiration(5, 1_065), Ok(()));
    assert_eq!(claims.validate_expiration(5, 1_066), Err(ValidationError::Expired));
    assert_eq!(claims.validate_expiration(5, 1_000_000), Err(ValidationError::Expired));
}

#[test]
fn claims_without_expiration_are_refused() {
    let claims = Claims::new(empty_object());
    assert_eq!(claims.validate_expiration(0, 0), Err(ValidationError::NoExpiration));
}

#[test]
fn cloned_claims_equal_their_source() {
    let mut map = serde_json::Map::new();
    map.insert("role".to_string(), serde_json::Value::from("admin"));
    let claims = Claims::issued(serde_json::Value::Object(map), 10, 20);
    assert_eq!(claims.clone(), claims);
}

//! The judgement of a token: parsed, checked against the key, then held
//! against the clock.

use vstd::prelude::*;
use crate::claims::{issued_spec, Claims};
use crate::errors::{AuthError, AuthResult, CreationError, ParseError, ValidationError};
use crate::jwt::{
    integrity_failure, integrity_outcome, parse_outcome, parse_untrusted, parsed, periods,
    signature_outcome, signing_outcome, verify_integrity, Algorithm, ParsedToken,
};
use crate::time::{clamp_spec, expiration_spec, expired_at, TimeOptions};

verus! {

/// What is known of the token that a request holds under one name.
#[derive(Debug)]
pub enum Presented {
    /// No source holds a token.
    Missing,
    /// The token is genuine and has not expired.
    Valid(Claims),
    /// The token is genuine, and has expired.
    Expired(Claims),
    /// The token is malformed or not genuine.
    Invalid(AuthError),
}

impl Presented {
    /// The claims of a token that holds, or the failure.
    pub open spec fn result_spec(self) -> AuthResult<Claims> {
        match self {
            Presented::Missing => Err(AuthError::NoToken),
            Presented::Valid(claims) => Ok(claims),
            Presented::Expired(_) => Err(AuthError::TokenValidation(ValidationError::Expired)),
            Presented::Invalid(e) => Err(e),
        }
    }

    /// Returns the claims of a token that holds, or the failure.
    pub fn into_result(self) -> (r: AuthResult<Claims>)
        ensures
            r == self.result_spec(),
    {
        match self {
            Presented::Missing => Err(AuthError::NoToken),
            Presented::Valid(claims) => Ok(claims),
            Presented::Expired(_) => Err(AuthError::TokenValidation(ValidationError::Expired)),
            Presented::Invalid(e) => Err(e),
        }
    }
}

/// What follows from the check against the key, held against the clock:
/// a failure of that check stands as it is; claims without an expiration
/// are refused; otherwise the token has expired exactly when `now` lies
/// more than `leeway` seconds behind the expiration.
pub open spec fn judged(integrity: Result<Claims, ValidationError>, leeway: int, now: int) -> Presented {
    match integrity {
        Err(e) => Presented::Invalid(AuthError::TokenValidation(e)),
        Ok(claims) => match claims.expiration {
            None => Presented::Invalid(AuthError::TokenValidation(ValidationError::NoExpiration)),
            Some(expiration) => if expired_at(expiration as int, leeway, now) {
                Presented::Expired(claims)
            } else {
                Presented::Valid(claims)
            },
        },
    }
}

/// What is known of a token string: a string that cannot be taken apart
/// is refused for that; one that can is checked against the key and then
/// held against the clock.
pub open spec fn examined(algorithm: Algorithm, key: Seq<u8>, leeway: int, now: int, token: Seq<char>) -> Presented {
    match parsed(token) {
        Err(e) => Presented::Invalid(AuthError::TokenParse(e)),
        Ok(parsed) => judged(integrity_outcome(algorithm, parsed, key), leeway, now),
    }
}

/// Whether a token string is malformed: it has the wrong number of
/// segments, or its segments are not validly encoded.
pub open spec fn malformed(token: Seq<char>) -> bool {
    periods(token) != 2 || parse_outcome(token) == Err::<ParsedToken, ParseError>(
        ParseError::InvalidBase64Encoding,
    )
}

/// Holds the result of the check against the key against the clock.
pub fn judge(integrity: Result<Claims, ValidationError>, leeway: u64, now: i64) -> (r: Presented)
    ensures
        r == judged(integrity, leeway as int, now as int),
{
    match integrity {
        Err(e) => Presented::Invalid(AuthError::TokenValidation(e)),
        Ok(claims) => match claims.validate_expiration(leeway, now) {
            Ok(()) => Presented::Valid(claims),
            Err(ValidationError::Expired) => Presented::Expired(claims),
            Err(e) => Presented::Invalid(AuthError::TokenValidation(e)),
        },
    }
}

/// Parses `token`, checks it against `key` and holds it against `now`. A
/// string that does not have exactly two periods, or whose segments are
/// not validly encoded, is refused for its structure. A token is reported
/// as expired only after its signature has been found in order.
pub fn examine(token: &str, algorithm: Algorithm, key: &[u8], leeway: u64, now: i64) -> (r: Presented)
    ensures
        r == examined(algorithm, key@, leeway as int, now as int, token@),
        malformed(token@) ==> r == Presented::Invalid(
            AuthError::TokenParse(ParseError::InvalidTokenStructure),
        ),
        !(r is Missing),
{
    match parse_untrusted(token) {
        Err(e) => Presented::Invalid(AuthError::TokenParse(e)),
        Ok(parsed) => judge(verify_integrity(&parsed, algorithm, key), leeway, now),
    }
}

/// Validates `token` at the instant `now`: the claims of a genuine token
/// that has not expired, or the failure.
pub fn validate_jwt_at(token: &str, algorithm: Algorithm, key: &[u8], leeway: u64, now: i64) -> (r: AuthResult<
    Claims,
>)
    ensures
        r == examined(algorithm, key@, leeway as int, now as int, token@).result_spec(),
        malformed(token@) ==> r == Err::<Claims, AuthError>(
            AuthError::TokenParse(ParseError::InvalidTokenStructure),
        ),
{
    examine(token, algorithm, key, leeway, now).into_result()
}

/// Validates `token` at the instant that the clock of `time_options`
/// gives.
pub fn validate_jwt(token: &str, algorithm: Algorithm, key: &[u8], time_options: &TimeOptions) -> (r:
    AuthResult<Claims>)
    ensures
        exists|now: int| #[trigger]
            time_options.clock.may_read(now) && r == examined(
                algorithm,
                key@,
                time_options.leeway as int,
                now,
                token@,
            ).result_spec(),
        malformed(token@) ==> r == Err::<Claims, AuthError>(
            AuthError::TokenParse(ParseError::InvalidTokenStructure),
        ),
{
    let now: i64 = time_options.now_rounded_up();
    assert(time_options.clock.may_read(now as int));
    validate_jwt_at(token, algorithm, key, time_options.leeway, now)
}

/// A malformed token string is refused for its structure, whatever the
/// key and the clock.
pub proof fn lemma_malformed_token_is_refused(
    algorithm: Algorithm,
    key: Seq<u8>,
    leeway: int,
    now: int,
    token: Seq<char>,
)
    requires
        malformed(token),
    ensures
        examined(algorithm, key, leeway, now, token) == Presented::Invalid(
            AuthError::TokenParse(ParseError::InvalidTokenStructure),
        ),
        examined(algorithm, key, leeway, now, token).result_spec() == Err::<Claims, AuthError>(
            AuthError::TokenParse(ParseError::InvalidTokenStructure),
        ),
{
}

/// A failure of the check against the key is reported as it is, whatever
/// the clock says: no reading of the clock turns it into an expiration.
pub proof fn lemma_integrity_failure_ignores_clock(e: ValidationError, leeway: int, now: int)
    ensures
        judged(Err(e), leeway, now) == Presented::Invalid(AuthError::TokenValidation(e)),
        integrity_failure(e) ==> judged(Err(e), leeway, now).result_spec() != Err::<Claims, AuthError>(
            AuthError::TokenValidation(ValidationError::Expired),
        ),
{
}

/// Integrity is decided before expiry. A token whose signature does not
/// pass the check against the key fails with a failure of that check,
/// never with an expiration: at every reading of the clock, also long
/// after the token's expiration, and it fails alike at every reading.
pub proof fn lemma_failed_check_is_never_expiry(
    algorithm: Algorithm,
    key: Seq<u8>,
    leeway: int,
    now: int,
    later: int,
    token: Seq<char>,
)
    requires
        parsed(token) is Ok,
        signature_outcome(algorithm, parsed(token)->Ok_0, key) is Err,
    ensures
        examined(algorithm, key, leeway, now, token) is Invalid,
        examined(algorithm, key, leeway, now, token)->Invalid_0 is TokenValidation,
        integrity_failure(examined(algorithm, key, leeway, now, token)->Invalid_0->TokenValidation_0),
        examined(algorithm, key, leeway, now, token).result_spec() != Err::<Claims, AuthError>(
            AuthError::TokenValidation(ValidationError::Expired),
        ),
        examined(algorithm, key, leeway, later, token) == examined(algorithm, key, leeway, now, token),
{
}

/// A token is found expired only if it could be taken apart and its
/// signature is in order; and it is found valid only then, too.
pub proof fn lemma_expired_only_if_genuine(
    algorithm: Algorithm,
    key: Seq<u8>,
    leeway: int,
    now: int,
    token: Seq<char>,
)
    ensures
        examined(algorithm, key, leeway, now, token) matches Presented::Expired(claims) ==> (parsed(token)
            matches Ok(parts) && integrity_outcome(algorithm, parts, key) == Ok::<Claims, ValidationError>(
            claims,
        )),
        examined(algorithm, key, leeway, now, token) matches Presented::Valid(claims) ==> (parsed(token)
            matches Ok(parts) && integrity_outcome(algorithm, parts, key) == Ok::<Claims, ValidationError>(
            claims,
        )),
{
}

/// The round trip, as far as it is this library's: a token that was
/// signed for `custom` at `now` validates at that instant, under any
/// leeway, and gives `custom` back. It holds of every token that the
/// codec reads back as it was written, which is the codec's to keep (it
/// does not for a payload that is no JSON object, nor for one with a key
/// of its own named like an instant).
pub proof fn lemma_signed_token_validates_at_issue(
    algorithm: Algorithm,
    key: Seq<u8>,
    header: Option<jwt_compact::Header>,
    custom: serde_json::Value,
    now: int,
    lifetime: nat,
    leeway: nat,
    token: Seq<char>,
)
    requires
        signing_outcome(algorithm, header, issued_spec(custom, now, lifetime as int), key) == Ok::<
            Seq<char>,
            CreationError,
        >(token),
        parsed(token) is Ok,
        integrity_outcome(algorithm, parsed(token)->Ok_0, key) == Ok::<Claims, ValidationError>(
            issued_spec(custom, now, lifetime as int),
        ),
    ensures
        examined(algorithm, key, leeway as int, clamp_spec(now), token) == Presented::Valid(
            issued_spec(custom, now, lifetime as int),
        ),
        examined(algorithm, key, leeway as int, clamp_spec(now), token).result_spec() is Ok,
        examined(algorithm, key, leeway as int, clamp_spec(now), token).result_spec()->Ok_0.custom == custom,
{
}

/// A genuine token with an expiration is valid through the last second of
/// the leeway and expired from the next on.
pub proof fn lemma_validity_ends_after_leeway(claims: Claims, leeway: int)
    requires
        claims.expiration is Some,
    ensures
        judged(Ok(claims), leeway, claims.expiration->0 + leeway) == Presented::Valid(claims),
        judged(Ok(claims), leeway, claims.expiration->0 + leeway + 1) == Presented::Expired(claims),
{
}

/// Claims as a signer stamps them are valid at the instant of their
/// issue, whatever the lifetime and the leeway, and they are the claims
/// that were given.
pub proof fn lemma_issued_claims_are_valid_at_issue(
    custom: serde_json::Value,
    now: int,
    lifetime: nat,
    leeway: nat,
)
    ensures
        judged(Ok(issued_spec(custom, now, lifetime as int)), leeway as int, clamp_spec(now))
            == Presented::Valid(issued_spec(custom, now, lifetime as int)),
        issued_spec(custom, now, lifetime as int).custom == custom,
{
}

/// Claims as a signer stamps them are valid up to their expiration and
/// the leeway behind it, and expired from then on.
pub proof fn lemma_issued_claims_hold_for_their_lifetime(
    custom: serde_json::Value,
    now: int,
    lifetime: nat,
    leeway: nat,
    at: int,
)
    ensures
        at <= expiration_spec(now, lifetime as int) + leeway ==> judged(
            Ok(issued_spec(custom, now, lifetime as int)),
            leeway as int,
            at,
        ) == Presented::Valid(issued_spec(custom, now, lifetime as int)),
        at > expiration_spec(now, lifetime as int) + leeway ==> judged(
            Ok(issued_spec(custom, now, lifetime as int)),
            leeway as int,
            at,
        ) == Presented::Expired(issued_spec(custom, now, lifetime as int)),
{
}

} // verus!

//! The claims of a token: the application's payload and the instants
//! between which the token holds.

use vstd::prelude::*;
use crate::errors::ValidationError;
use crate::time::{clamp, clamp_spec, expiration_after, expiration_spec, expired_at, is_expired, representable};

verus! {

/// What a token states. `custom` is the application's payload, which the
/// authority carries and never reads.
#[derive(Debug, PartialEq)]
pub struct Claims {
    /// The second at which the token was issued.
    pub issued_at: Option<i64>,
    /// The second after which the token no longer holds.
    pub expiration: Option<i64>,
    /// The second before which the token does not hold yet.
    pub not_before: Option<i64>,
    /// The application's payload.
    pub custom: serde_json::Value,
}

impl Clone for Claims {
    fn clone(&self) -> (r: Self)
        ensures
            r == *self,
    {
        Claims {
            issued_at: self.issued_at,
            expiration: self.expiration,
            not_before: self.not_before,
            custom: self.custom.clone(),
        }
    }
}

/// The claims of a token with payload `custom`, issued at `now` for
/// `lifetime` seconds.
pub open spec fn issued_spec(custom: serde_json::Value, now: int, lifetime: int) -> Claims {
    Claims {
        issued_at: Some(clamp_spec(now) as i64),
        expiration: Some(expiration_spec(now, lifetime) as i64),
        not_before: None,
        custom,
    }
}

/// What the check of the expiration gives for `claims` at `now`.
pub open spec fn expiration_outcome(claims: Claims, leeway: int, now: int) -> Result<(), ValidationError> {
    match claims.expiration {
        None => Err(ValidationError::NoExpiration),
        Some(expiration) => if expired_at(expiration as int, leeway, now) {
            Err(ValidationError::Expired)
        } else {
            Ok(())
        },
    }
}

impl Claims {
    /// Claims with the given payload and no instants.
    pub fn new(custom: serde_json::Value) -> (r: Self)
        ensures
            r == (Claims { issued_at: None, expiration: None, not_before: None, custom }),
    {
        Claims { issued_at: None, expiration: None, not_before: None, custom }
    }

    /// Claims with the given payload, issued at `now` for `lifetime` seconds.
    pub fn issued(custom: serde_json::Value, now: i64, lifetime: u64) -> (r: Self)
        ensures
            r == issued_spec(custom, now as int, lifetime as int),
            r.stampable(),
    {
        Claims {
            issued_at: Some(clamp(now)),
            expiration: Some(expiration_after(now, lifetime)),
            not_before: None,
            custom,
        }
    }

    /// Whether every instant in these claims can be written into a token.
    pub open spec fn stampable(self) -> bool {
        &&& self.issued_at matches Some(t) ==> representable(t as int)
        &&& self.expiration matches Some(t) ==> representable(t as int)
        &&& self.not_before matches Some(t) ==> representable(t as int)
    }

    /// Checks the expiration against `now`: a token without one is refused,
    /// and one with an expiration fails exactly when `now` lies more than
    /// `leeway` seconds behind it.
    pub fn validate_expiration(&self, leeway: u64, now: i64) -> (r: Result<(), ValidationError>)
        ensures
            r == expiration_outcome(*self, leeway as int, now as int),
    {
        match self.expiration {
            None => Err(ValidationError::NoExpiration),
            Some(expiration) => if is_expired(expiration, leeway, now) {
                Err(ValidationError::Expired)
            } else {
                Ok(())
            },
        }
    }
}

/// A token is still accepted at the last second of its leeway, and no
/// longer one second later.
pub proof fn lemma_expiry_boundary(claims: Claims, leeway: int)
    requires
        claims.expiration is Some,
    ensures
        expiration_outcome(claims, leeway, claims.expiration->0 + leeway) == Ok::<(), ValidationError>(()),
        expiration_outcome(claims, leeway, claims.expiration->0 + leeway + 1) == Err::<(), ValidationError>(
            ValidationError::Expired,
        ),
{
}

/// Once expired, always expired: a later reading of the clock does not
/// bring a token back.
pub proof fn lemma_expiry_is_final(claims: Claims, leeway: int, now: int, later: int)
    requires
        now <= later,
        expiration_outcome(claims, leeway, now) == Err::<(), ValidationError>(ValidationError::Expired),
    ensures
        expiration_outcome(claims, leeway, later) == Err::<(), ValidationError>(ValidationError::Expired),
{
}

/// Claims pass the check of their expiration at the instant at which
/// they were issued, whatever their lifetime and the leeway.
pub proof fn lemma_fresh_claims_hold(custom: serde_json::Value, now: int, lifetime: nat, leeway: nat)
    ensures
        expiration_outcome(issued_spec(custom, now, lifetime as int), leeway as int, clamp_spec(now)) == Ok::<
            (),
            ValidationError,
        >(()),
        issued_spec(custom, now, lifetime as int).custom == custom,
{
}

} // verus!

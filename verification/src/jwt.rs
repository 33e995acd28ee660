//! The signing algorithms, and every call into `jwt_compact`.

use vstd::prelude::*;
use chrono::DateTime;
use jwt_compact::alg::{Hs256, Hs256Key, Hs384, Hs384Key, Hs512, Hs512Key};
use jwt_compact::AlgorithmExt;
use jwt_compact::CreationError as JwtCreationError;
use jwt_compact::ParseError as JwtParseError;
use jwt_compact::ValidationError as JwtValidationError;
use crate::claims::Claims;
use crate::errors::{CreationError, ParseError, ValidationError};

verus! {

/// `serde_json::Value`: the form in which the application's payload is
/// carried. Nothing is read from it here.
#[verifier::external_type_specification]
#[verifier::external_body]
pub struct ExJsonValue(serde_json::Value);

/// `jwt_compact::UntrustedToken`: a token string taken apart, not yet
/// checked.
#[verifier::external_type_specification]
#[verifier::external_body]
#[verifier::reject_recursive_types(H)]
pub struct ExUntrustedToken<'a, H>(jwt_compact::UntrustedToken<'a, H>);

/// `jwt_compact::Header`: the header of a token, which a signer carries
/// and writes into its tokens. Nothing is read from it here.
#[verifier::external_type_specification]
#[verifier::external_body]
#[verifier::reject_recursive_types(T)]
pub struct ExHeader<T>(jwt_compact::Header<T>);

/// `jwt_compact::Empty`: the header extension of a token that has none.
#[verifier::external_type_specification]
#[verifier::external_body]
pub struct ExEmpty(jwt_compact::Empty);

/// `Clone` of `serde_json::Value`, which `serde_json` derives: the copy
/// equals the value copied.
pub assume_specification[ <serde_json::Value as Clone>::clone ](value: &serde_json::Value) -> (r:
    serde_json::Value)
    ensures
        r == *value,
;

/// The algorithms by which tokens are signed: HMAC over SHA-2.
#[derive(Debug, Clone, Copy, PartialEq, Eq, Structural)]
pub enum Algorithm {
    Hs256,
    Hs384,
    Hs512,
}

/// A token string taken apart into header, claims and signature. Nothing
/// in it has been checked against a key.
#[derive(Debug)]
pub struct ParsedToken {
    algorithm: String,
    signature: Vec<u8>,
    inner: jwt_compact::UntrustedToken<'static>,
}

impl ParsedToken {
    /// The name of the algorithm, as the token's header gives it.
    pub closed spec fn algorithm_spec(self) -> Seq<char> {
        self.algorithm@
    }

    /// The bytes of the signature.
    pub closed spec fn signature_spec(self) -> Seq<u8> {
        self.signature@
    }

    /// Returns the name of the algorithm, as the token's header gives it.
    pub fn algorithm(&self) -> (r: &str)
        ensures
            r@ == self.algorithm_spec(),
    {
        self.algorithm.as_str()
    }

    /// Returns the bytes of the signature.
    pub fn signature(&self) -> (r: &[u8])
        ensures
            r@ == self.signature_spec(),
    {
        self.signature.as_slice()
    }
}

/// The number of periods in `text`.
pub open spec fn periods(text: Seq<char>) -> nat
    decreases text.len(),
{
    if text.len() == 0 {
        0
    } else {
        periods(text.drop_last()) + if text.last() == '.' {
            1nat
        } else {
            0nat
        }
    }
}

/// What `jwt_compact::UntrustedToken::new` makes of a token string.
pub uninterp spec fn parse_outcome(token: Seq<char>) -> Result<ParsedToken, ParseError>;

/// What the validator of `jwt_compact` for `algorithm` and `key` finds of
/// a parsed token: `Ok` when algorithm, signature and the form of the
/// claims are in order.
pub uninterp spec fn signature_outcome(algorithm: Algorithm, token: ParsedToken, key: Seq<u8>) -> Result<
    (),
    ValidationError,
>;

/// The claims that `jwt_compact` reads from a parsed token.
pub uninterp spec fn claims_outcome(token: ParsedToken) -> Result<Claims, ValidationError>;

/// The token string that `jwt_compact` creates for `header` and `claims`
/// under `algorithm` and `key`. No header stands for the empty one.
pub uninterp spec fn signing_outcome(
    algorithm: Algorithm,
    header: Option<jwt_compact::Header>,
    claims: Claims,
    key: Seq<u8>,
) -> Result<Seq<char>, CreationError>;

/// A failure of the signature check is never one of the expiration.
pub open spec fn integrity_failure(e: ValidationError) -> bool {
    !(e is Expired) && !(e is NoExpiration)
}

/// The text of a created token, or the failure.
pub open spec fn text_of(r: Result<String, CreationError>) -> Result<Seq<char>, CreationError> {
    match r {
        Ok(token) => Ok(token@),
        Err(e) => Err(e),
    }
}

/// Calls `jwt_compact::UntrustedToken::new` on `token`. The result depends
/// on the string alone. A string with two periods is never refused for its
/// structure, and any other string is refused for just that: the crate
/// splits at the periods first and goes on only with exactly three parts.
#[verifier::external_body]
fn parse_compact(token: &str) -> (r: Result<ParsedToken, ParseError>)
    ensures
        r == parse_outcome(token@),
        (r matches Err(e) && e is InvalidTokenStructure) <==> periods(token@) != 2,
{
    match jwt_compact::UntrustedToken::new(token) {
        Ok(t) => Ok(ParsedToken {
            algorithm: t.algorithm().to_string(),
            signature: t.signature_bytes().to_vec(),
            inner: t.into_owned(),
        }),
        Err(JwtParseError::InvalidTokenStructure) => Err(ParseError::InvalidTokenStructure),
        Err(JwtParseError::InvalidBase64Encoding) => Err(ParseError::InvalidBase64Encoding),
        Err(JwtParseError::MalformedHeader(_)) => Err(ParseError::MalformedHeader),
        Err(JwtParseError::UnsupportedContentType(ty)) => Err(ParseError::UnsupportedContentType(ty)),
        Err(_) => Err(ParseError::Other),
    }
}

/// Calls `validate` on the validator of `jwt_compact::alg::Hs256` for
/// `key`. The result depends on the token and the key alone. The check
/// does not look at the clock, so no failure of it speaks of expiration.
#[verifier::external_body]
fn check_hs256(token: &ParsedToken, key: &[u8]) -> (r: Result<(), ValidationError>)
    ensures
        r == signature_outcome(Algorithm::Hs256, *token, key@),
        r matches Err(e) ==> integrity_failure(e),
{
    match Hs256.validator::<serde_json::Value>(&Hs256Key::new(key)).validate(&token.inner) {
        Ok(_) => Ok(()),
        Err(JwtValidationError::AlgorithmMismatch { expected, actual }) => Err(ValidationError::AlgorithmMismatch { expected, actual }),
        Err(JwtValidationError::InvalidSignatureLen { expected, actual }) => Err(ValidationError::InvalidSignatureLen { expected_len: expected, actual_len: actual }),
        Err(JwtValidationError::MalformedSignature(_)) => Err(ValidationError::MalformedSignature),
        Err(JwtValidationError::InvalidSignature) => Err(ValidationError::InvalidSignature),
        Err(JwtValidationError::MalformedClaims(_)) => Err(ValidationError::MalformedClaims),
        Err(JwtValidationError::MalformedCborClaims(_)) => Err(ValidationError::MalformedClaims),
        Err(_) => Err(ValidationError::Other),
    }
}

/// Calls `validate` on the validator of `jwt_compact::alg::Hs384` for
/// `key`. The result depends on the token and the key alone. The check
/// does not look at the clock, so no failure of it speaks of expiration.
#[verifier::external_body]
fn check_hs384(token: &ParsedToken, key: &[u8]) -> (r: Result<(), ValidationError>)
    ensures
        r == signature_outcome(Algorithm::Hs384, *token, key@),
        r matches Err(e) ==> integrity_failure(e),
{
    match Hs384.validator::<serde_json::Value>(&Hs384Key::new(key)).validate(&token.inner) {
        Ok(_) => Ok(()),
        Err(JwtValidationError::AlgorithmMismatch { expected, actual }) => Err(ValidationError::AlgorithmMismatch { expected, actual }),
        Err(JwtValidationError::InvalidSignatureLen { expected, actual }) => Err(ValidationError::InvalidSignatureLen { expected_len: expected, actual_len: actual }),
        Err(JwtValidationError::MalformedSignature(_)) => Err(ValidationError::MalformedSignature),
        Err(JwtValidationError::InvalidSignature) => Err(ValidationError::InvalidSignature),
        Err(JwtValidationError::MalformedClaims(_)) => Err(ValidationError::MalformedClaims),
        Err(JwtValidationError::MalformedCborClaims(_)) => Err(ValidationError::MalformedClaims),
        Err(_) => Err(ValidationError::Other),
    }
}

/// Calls `validate` on the validator of `jwt_compact::alg::Hs512` for
/// `key`. The result depends on the token and the key alone. The check
/// does not look at the clock, so no failure of it speaks of expiration.
#[verifier::external_body]
fn check_hs512(token: &ParsedToken, key: &[u8]) -> (r: Result<(), ValidationError>)
    ensures
        r == signature_outcome(Algorithm::Hs512, *token, key@),
        r matches Err(e) ==> integrity_failure(e),
{
    match Hs512.validator::<serde_json::Value>(&Hs512Key::new(key)).validate(&token.inner) {
        Ok(_) => Ok(()),
        Err(JwtValidationError::AlgorithmMismatch { expected, actual }) => Err(ValidationError::AlgorithmMismatch { expected, actual }),
        Err(JwtValidationError::InvalidSignatureLen { expected, actual }) => Err(ValidationError::InvalidSignatureLen { expected_len: expected, actual_len: actual }),
        Err(JwtValidationError::MalformedSignature(_)) => Err(ValidationError::MalformedSignature),
        Err(JwtValidationError::InvalidSignature) => Err(ValidationError::InvalidSignature),
        Err(JwtValidationError::MalformedClaims(_)) => Err(ValidationError::MalformedClaims),
        Err(JwtValidationError::MalformedCborClaims(_)) => Err(ValidationError::MalformedClaims),
        Err(_) => Err(ValidationError::Other),
    }
}

/// Calls `deserialize_claims_unchecked` of `jwt_compact::UntrustedToken`,
/// with the payload read as a `serde_json::Value`, and gives each instant
/// as its seconds. The result depends on the token alone.
#[verifier::external_body]
fn decode_claims(token: &ParsedToken) -> (r: Result<Claims, ValidationError>)
    ensures
        r == claims_outcome(*token),
        r matches Err(e) ==> integrity_failure(e),
{
    match token.inner.deserialize_claims_unchecked::<serde_json::Value>() {
        Ok(c) => Ok(Claims {
            issued_at: c.issued_at.map(|t| t.timestamp()),
            expiration: c.expiration.map(|t| t.timestamp()),
            not_before: c.not_before.map(|t| t.timestamp()),
            custom: c.custom,
        }),
        Err(JwtValidationError::MalformedClaims(_)) => Err(ValidationError::MalformedClaims),
        Err(JwtValidationError::MalformedCborClaims(_)) => Err(ValidationError::MalformedClaims),
        Err(_) => Err(ValidationError::Other),
    }
}

/// Calls `token` of `jwt_compact::alg::Hs256` with the header, or the
/// empty one where there is none, the claims and the key. The result
/// depends on these alone. `chrono` holds every instant that `stampable`
/// admits.
#[verifier::external_body]
fn sign_hs256(header: &Option<jwt_compact::Header>, claims: &Claims, key: &[u8]) -> (r: Result<
    String,
    CreationError,
>)
    requires
        claims.stampable(),
    ensures
        text_of(r) == signing_outcome(Algorithm::Hs256, *header, *claims, key@),
{
    let mut c = jwt_compact::Claims::new(claims.custom.clone());
    c.issued_at = claims.issued_at.and_then(|s| DateTime::from_timestamp(s, 0));
    c.expiration = claims.expiration.and_then(|s| DateTime::from_timestamp(s, 0));
    c.not_before = claims.not_before.and_then(|s| DateTime::from_timestamp(s, 0));
    match Hs256.token(&header.clone().unwrap_or_default(), &c, &Hs256Key::new(key)) {
        Ok(token) => Ok(token),
        Err(JwtCreationError::Header(_)) => Err(CreationError::Header),
        Err(JwtCreationError::Claims(_)) => Err(CreationError::Claims),
        Err(_) => Err(CreationError::Other),
    }
}

/// Calls `token` of `jwt_compact::alg::Hs384` with the header, or the
/// empty one where there is none, the claims and the key. The result
/// depends on these alone. `chrono` holds every instant that `stampable`
/// admits.
#[verifier::external_body]
fn sign_hs384(header: &Option<jwt_compact::Header>, claims: &Claims, key: &[u8]) -> (r: Result<
    String,
    CreationError,
>)
    requires
        claims.stampable(),
    ensures
        text_of(r) == signing_outcome(Algorithm::Hs384, *header, *claims, key@),
{
    let mut c = jwt_compact::Claims::new(claims.custom.clone());
    c.issued_at = claims.issued_at.and_then(|s| DateTime::from_timestamp(s, 0));
    c.expiration = claims.expiration.and_then(|s| DateTime::from_timestamp(s, 0));
    c.not_before = claims.not_before.and_then(|s| DateTime::from_timestamp(s, 0));
    match Hs384.token(&header.clone().unwrap_or_default(), &c, &Hs384Key::new(key)) {
        Ok(token) => Ok(token),
        Err(JwtCreationError::Header(_)) => Err(CreationError::Header),
        Err(JwtCreationError::Claims(_)) => Err(CreationError::Claims),
        Err(_) => Err(CreationError::Other),
    }
}

/// Calls `token` of `jwt_compact::alg::Hs512` with the header, or the
/// empty one where there is none, the claims and the key. The result
/// depends on these alone. `chrono` holds every instant that `stampable`
/// admits.
#[verifier::external_body]
fn sign_hs512(header: &Option<jwt_compact::Header>, claims: &Claims, key: &[u8]) -> (r: Result<
    String,
    CreationError,
>)
    requires
        claims.stampable(),
    ensures
        text_of(r) == signing_outcome(Algorithm::Hs512, *header, *claims, key@),
{
    let mut c = jwt_compact::Claims::new(claims.custom.clone());
    c.issued_at = claims.issued_at.and_then(|s| DateTime::from_timestamp(s, 0));
    c.expiration = claims.expiration.and_then(|s| DateTime::from_timestamp(s, 0));
    c.not_before = claims.not_before.and_then(|s| DateTime::from_timestamp(s, 0));
    match Hs512.token(&header.clone().unwrap_or_default(), &c, &Hs512Key::new(key)) {
        Ok(token) => Ok(token),
        Err(JwtCreationError::Header(_)) => Err(CreationError::Header),
        Err(JwtCreationError::Claims(_)) => Err(CreationError::Claims),
        Err(_) => Err(CreationError::Other),
    }
}

/// Copies a header with `Clone` of `jwt_compact::Header`, which
/// `jwt_compact` derives: the copy equals the header copied.
#[verifier::external_body]
pub(crate) fn copy_header(header: &Option<jwt_compact::Header>) -> (r: Option<jwt_compact::Header>)
    ensures
        r == *header,
{
    header.clone()
}

impl Algorithm {
    /// The name under which a token's header gives the algorithm.
    pub open spec fn name_spec(self) -> Seq<char> {
        match self {
            Algorithm::Hs256 => "HS256"@,
            Algorithm::Hs384 => "HS384"@,
            Algorithm::Hs512 => "HS512"@,
        }
    }

    /// Returns the name under which a token's header gives the algorithm.
    pub fn name(&self) -> (r: &'static str)
        ensures
            r@ == self.name_spec(),
    {
        match self {
            Algorithm::Hs256 => "HS256",
            Algorithm::Hs384 => "HS384",
            Algorithm::Hs512 => "HS512",
        }
    }

    /// Creates the token string for `header` and `claims`, signed with
    /// `key`. No header stands for the empty one.
    pub fn sign(&self, header: &Option<jwt_compact::Header>, claims: &Claims, key: &[u8]) -> (r: Result<
        String,
        CreationError,
    >)
        requires
            claims.stampable(),
        ensures
            text_of(r) == signing_outcome(*self, *header, *claims, key@),
    {
        match self {
            Algorithm::Hs256 => sign_hs256(header, claims, key),
            Algorithm::Hs384 => sign_hs384(header, claims, key),
            Algorithm::Hs512 => sign_hs512(header, claims, key),
        }
    }

    /// Checks algorithm, signature and the form of the claims of `token`
    /// against `key`.
    pub fn check(&self, token: &ParsedToken, key: &[u8]) -> (r: Result<(), ValidationError>)
        ensures
            r == signature_outcome(*self, *token, key@),
            r matches Err(e) ==> integrity_failure(e),
    {
        match self {
            Algorithm::Hs256 => check_hs256(token, key),
            Algorithm::Hs384 => check_hs384(token, key),
            Algorithm::Hs512 => check_hs512(token, key),
        }
    }
}

/// A failure of the check against the key as it is reported. The check
/// never gives a failure of the expiration; that it does not is part of
/// what this function says, so such a failure would count as `Other`.
pub open spec fn integrity_error(e: ValidationError) -> ValidationError {
    if integrity_failure(e) {
        e
    } else {
        ValidationError::Other
    }
}

/// What the check of a parsed token against a key gives: the claims, once
/// algorithm and signature are in order. No failure of it is one of the
/// expiration.
pub open spec fn integrity_outcome(algorithm: Algorithm, token: ParsedToken, key: Seq<u8>) -> Result<
    Claims,
    ValidationError,
> {
    match signature_outcome(algorithm, token, key) {
        Err(e) => Err(integrity_error(e)),
        Ok(()) => match claims_outcome(token) {
            Err(e) => Err(integrity_error(e)),
            Ok(claims) => Ok(claims),
        },
    }
}

/// What taking a token string apart gives. A string that does not have
/// exactly two periods has the wrong number of segments, and one whose
/// segments are not base64url is not validly encoded: both are refused
/// with `InvalidTokenStructure`. Every other string gives what the parser
/// makes of it.
pub open spec fn parsed(token: Seq<char>) -> Result<ParsedToken, ParseError> {
    if periods(token) != 2 {
        Err(ParseError::InvalidTokenStructure)
    } else {
        match parse_outcome(token) {
            Err(ParseError::InvalidBase64Encoding) => Err(ParseError::InvalidTokenStructure),
            Err(e) => Err(e),
            Ok(token) => Ok(token),
        }
    }
}

/// Takes a compact token string apart. It fails with
/// `InvalidTokenStructure` where the string does not have exactly two
/// periods and where a segment is not validly encoded.
pub fn parse_untrusted(token: &str) -> (r: Result<ParsedToken, ParseError>)
    ensures
        r == parsed(token@),
        periods(token@) != 2 ==> r == Err::<ParsedToken, ParseError>(ParseError::InvalidTokenStructure),
        parse_outcome(token@) == Err::<ParsedToken, ParseError>(ParseError::InvalidBase64Encoding) ==> r
            == Err::<ParsedToken, ParseError>(ParseError::InvalidTokenStructure),
        r matches Err(e) ==> !(e is InvalidBase64Encoding),
{
    match parse_compact(token) {
        Err(ParseError::InvalidBase64Encoding) => Err(ParseError::InvalidTokenStructure),
        Err(e) => Err(e),
        Ok(token) => Ok(token),
    }
}

/// Checks a parsed token against `key` and gives its claims. No failure
/// of this check speaks of expiration.
pub fn verify_integrity(token: &ParsedToken, algorithm: Algorithm, key: &[u8]) -> (r: Result<
    Claims,
    ValidationError,
>)
    ensures
        r == integrity_outcome(algorithm, *token, key@),
        r matches Err(e) ==> integrity_failure(e),
{
    match algorithm.check(token, key) {
        Err(e) => Err(e),
        Ok(()) => decode_claims(token),
    }
}

} // verus!

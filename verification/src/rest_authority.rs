//! An authority for clients that send their tokens in headers: no cookie
//! is read and no token is renewed.

use vstd::prelude::*;
use vstd::string::*;
use crate::claims::Claims;
use crate::errors::{AuthError, AuthResult, ParseError};
use crate::jwt::Algorithm;
use crate::request::ServiceRequest;
use crate::time::TimeOptions;
use crate::token_signer::{
    name_or, BuilderError, RequiredField, DEFAULT_ACCESS_TOKEN_NAME, DEFAULT_REFRESH_TOKEN_NAME,
};
use crate::validate::{examine, examined, malformed, Presented};

verus! {

/// The settings by which requests with tokens in their headers are
/// judged.
#[derive(Debug)]
pub struct RestAuthority {
    /// The name of the header of the access token.
    pub access_token_name: String,
    /// The name of the header of the refresh token.
    pub refresh_token_name: String,
    /// The key against which tokens are checked.
    pub verifying_key: Vec<u8>,
    /// The algorithm by which tokens are checked.
    pub algorithm: Algorithm,
    /// The clock against which tokens are held, and the leeway.
    pub time_options: TimeOptions,
}

/// Such an authority as a plain value.
pub struct RestAuthorityView {
    pub access_token_name: Seq<char>,
    pub refresh_token_name: Seq<char>,
    pub verifying_key: Seq<u8>,
    pub algorithm: Algorithm,
    pub time_options: TimeOptions,
}

impl View for RestAuthority {
    type V = RestAuthorityView;

    open spec fn view(&self) -> RestAuthorityView {
        RestAuthorityView {
            access_token_name: self.access_token_name@,
            refresh_token_name: self.refresh_token_name@,
            verifying_key: self.verifying_key@,
            algorithm: self.algorithm,
            time_options: self.time_options,
        }
    }
}

/// The settings of such an authority, as far as they have been chosen.
#[derive(Debug)]
pub struct RestAuthorityBuilder {
    pub access_token_name: Option<String>,
    pub refresh_token_name: Option<String>,
    pub verifying_key: Option<Vec<u8>>,
    pub algorithm: Option<Algorithm>,
    pub time_options: Option<TimeOptions>,
}

/// The claims with which a request is authenticated, from the states of
/// its two tokens: those of the access token if it holds; those of the
/// refresh token if the access token is missing or has expired and the
/// refresh token holds; else the failure of the token looked at last.
pub open spec fn rest_outcome(access: Presented, refresh: Presented) -> AuthResult<Claims> {
    match access {
        Presented::Valid(claims) => Ok(claims),
        Presented::Invalid(e) => Err(e),
        Presented::Expired(_) | Presented::Missing => refresh.result_spec(),
    }
}

impl RestAuthorityView {
    /// What is known at `now` of the token in the header `name`.
    pub open spec fn presented(self, request: ServiceRequest, name: Seq<char>, now: int) -> Presented {
        match request.header_spec(name) {
            None => Presented::Missing,
            Some(token) => examined(
                self.algorithm,
                self.verifying_key,
                self.time_options.leeway as int,
                now,
                token,
            ),
        }
    }

    /// Whether the token in the header `name` is malformed: it has the
    /// wrong number of segments, or its segments are not validly encoded.
    pub open spec fn holds_malformed(self, request: ServiceRequest, name: Seq<char>) -> bool {
        request.header_spec(name) is Some && malformed(request.header_spec(name)->0)
    }

    /// The authority's answer to `request` at `now`.
    pub open spec fn verified(self, request: ServiceRequest, now: int) -> AuthResult<Claims> {
        rest_outcome(
            self.presented(request, self.access_token_name, now),
            self.presented(request, self.refresh_token_name, now),
        )
    }
}

impl RestAuthorityBuilder {
    /// What `build` gives: the key, the algorithm and the time options are
    /// required, in this order; the names have defaults.
    pub open spec fn built_spec(self) -> Result<RestAuthorityView, BuilderError> {
        if self.verifying_key is None {
            Err(BuilderError::UninitializedField(RequiredField::VerifyingKey))
        } else if self.algorithm is None {
            Err(BuilderError::UninitializedField(RequiredField::Algorithm))
        } else if self.time_options is None {
            Err(BuilderError::UninitializedField(RequiredField::TimeOptions))
        } else {
            Ok(
                RestAuthorityView {
                    access_token_name: name_or(self.access_token_name, DEFAULT_ACCESS_TOKEN_NAME@),
                    refresh_token_name: name_or(self.refresh_token_name, DEFAULT_REFRESH_TOKEN_NAME@),
                    verifying_key: self.verifying_key->0@,
                    algorithm: self.algorithm->0,
                    time_options: self.time_options->0,
                },
            )
        }
    }

    /// Chooses the name of the header of the access token.
    pub fn access_token_name(self, name: String) -> (r: Self)
        ensures
            r == (RestAuthorityBuilder { access_token_name: Some(name), ..self }),
    {
        let mut builder = self;
        builder.access_token_name = Some(name);
        builder
    }

    /// Chooses the name of the header of the refresh token.
    pub fn refresh_token_name(self, name: String) -> (r: Self)
        ensures
            r == (RestAuthorityBuilder { refresh_token_name: Some(name), ..self }),
    {
        let mut builder = self;
        builder.refresh_token_name = Some(name);
        builder
    }

    /// Chooses the key against which tokens are checked.
    pub fn verifying_key(self, key: Vec<u8>) -> (r: Self)
        ensures
            r == (RestAuthorityBuilder { verifying_key: Some(key), ..self }),
    {
        let mut builder = self;
        builder.verifying_key = Some(key);
        builder
    }

    /// Chooses the algorithm by which tokens are checked.
    pub fn algorithm(self, algorithm: Algorithm) -> (r: Self)
        ensures
            r == (RestAuthorityBuilder { algorithm: Some(algorithm), ..self }),
    {
        let mut builder = self;
        builder.algorithm = Some(algorithm);
        builder
    }

    /// Chooses the clock and the leeway.
    pub fn time_options(self, options: TimeOptions) -> (r: Self)
        ensures
            r == (RestAuthorityBuilder { time_options: Some(options), ..self }),
    {
        let mut builder = self;
        builder.time_options = Some(options);
        builder
    }

    /// Builds the authority, or names the first field that is missing.
    pub fn build(self) -> (r: Result<RestAuthority, BuilderError>)
        ensures
            match r {
                Ok(authority) => self.built_spec() == Ok::<RestAuthorityView, BuilderError>(authority@),
                Err(e) => self.built_spec() == Err::<RestAuthorityView, BuilderError>(e),
            },
    {
        let verifying_key = match self.verifying_key {
            Some(key) => key,
            None => {
                return Err(BuilderError::UninitializedField(RequiredField::VerifyingKey));
            },
        };
        let algorithm = match self.algorithm {
            Some(algorithm) => algorithm,
            None => {
                return Err(BuilderError::UninitializedField(RequiredField::Algorithm));
            },
        };
        let time_options = match self.time_options {
            Some(options) => options,
            None => {
                return Err(BuilderError::UninitializedField(RequiredField::TimeOptions));
            },
        };
        Ok(
            RestAuthority {
                access_token_name: match self.access_token_name {
                    Some(name) => name,
                    None => DEFAULT_ACCESS_TOKEN_NAME.to_owned(),
                },
                refresh_token_name: match self.refresh_token_name {
                    Some(name) => name,
                    None => DEFAULT_REFRESH_TOKEN_NAME.to_owned(),
                },
                verifying_key,
                algorithm,
                time_options,
            },
        )
    }
}

/// Decides with which claims a request is authenticated, from the states
/// of its two tokens.
pub fn rest_decision(access: Presented, refresh: Presented) -> (r: AuthResult<Claims>)
    ensures
        r == rest_outcome(access, refresh),
{
    match access {
        Presented::Valid(claims) => Ok(claims),
        Presented::Invalid(e) => Err(e),
        Presented::Expired(_) | Presented::Missing => refresh.into_result(),
    }
}

impl RestAuthority {
    /// Starts an authority: a builder with nothing chosen.
    pub fn new() -> (r: RestAuthorityBuilder)
        ensures
            r == (RestAuthorityBuilder {
                access_token_name: None,
                refresh_token_name: None,
                verifying_key: None,
                algorithm: None,
                time_options: None,
            }),
    {
        RestAuthorityBuilder {
            access_token_name: None,
            refresh_token_name: None,
            verifying_key: None,
            algorithm: None,
            time_options: None,
        }
    }

    /// Looks for a token in the header `header_key` and judges it at
    /// `now`. A header whose value cannot be read as text counts as
    /// absent.
    pub fn validate_token(&self, request: &ServiceRequest, header_key: &str, now: i64) -> (r: Presented)
        ensures
            r == self@.presented(*request, header_key@, now as int),
            self@.holds_malformed(*request, header_key@) ==> r == Presented::Invalid(
                AuthError::TokenParse(ParseError::InvalidTokenStructure),
            ),
    {
        match request.header(header_key) {
            None => Presented::Missing,
            Some(token) => examine(
                token.as_str(),
                self.algorithm,
                self.verifying_key.as_slice(),
                self.time_options.leeway,
                now,
            ),
        }
    }

    /// Answers `request` at the instant `now` with the claims that
    /// authenticate it: those of the access token, or, where that is
    /// missing or has expired, those of the refresh token.
    pub fn verify_service_request_at(&self, request: &ServiceRequest, now: i64) -> (r: AuthResult<Claims>)
        ensures
            r == self@.verified(*request, now as int),
            self@.holds_malformed(*request, self@.access_token_name) ==> r == Err::<Claims, AuthError>(
                AuthError::TokenParse(ParseError::InvalidTokenStructure),
            ),
    {
        let access = self.validate_token(request, self.access_token_name.as_str(), now);
        match access {
            Presented::Valid(claims) => Ok(claims),
            Presented::Invalid(e) => Err(e),
            Presented::Expired(_) | Presented::Missing => {
                let refresh = self.validate_token(request, self.refresh_token_name.as_str(), now);
                refresh.into_result()
            },
        }
    }

    /// Answers `request` at the instant that the clock gives.
    pub fn verify_service_request(&self, request: &ServiceRequest) -> (r: AuthResult<Claims>)
        ensures
            exists|now: int| #[trigger]
                self.time_options.clock.may_read(now) && r == self@.verified(*request, now),
            self@.holds_malformed(*request, self@.access_token_name) ==> r == Err::<Claims, AuthError>(
                AuthError::TokenParse(ParseError::InvalidTokenStructure),
            ),
    {
        let now: i64 = self.time_options.now_rounded_up();
        assert(self.time_options.clock.may_read(now as int));
        self.verify_service_request_at(request, now)
    }
}

} // verus!

//! The authority: it decides for each request whether it is
//! authenticated, and renews tokens where that is due.

use vstd::prelude::*;
use vstd::string::*;
use crate::claims::Claims;
use crate::errors::{AuthError, AuthResult, CreationError, ParseError, Rejection, ValidationError};
use crate::jwt::Algorithm;
use crate::request::{ServiceRequest, TokenSource};
use crate::time::TimeOptions;
use crate::token_signer::{
    is_token_cookie, issued_token, BuilderError, Cookie, RequiredField, TokenSigner,
    TokenSignerView, DEFAULT_ACCESS_TOKEN_NAME, DEFAULT_REFRESH_TOKEN_NAME,
};
use crate::validate::{examine, examined, malformed, Presented};

verus! {

/// The cookies that a renewal has made, for the response to carry.
#[derive(Debug, PartialEq, Eq)]
pub struct TokenUpdate {
    pub access_cookie: Option<Cookie>,
    pub refresh_cookie: Option<Cookie>,
}

/// An authenticated request: the application's claims, and the cookies of
/// a renewal where one took place.
#[derive(Debug, PartialEq)]
pub struct Authorized {
    pub claims: serde_json::Value,
    pub token_update: Option<TokenUpdate>,
}

/// What the re-authorization hook answered.
#[derive(Debug)]
pub enum Reauthorization {
    /// The hook grants the renewal.
    Approved,
    /// The hook refuses the renewal.
    Denied(Rejection),
    /// The hook could not be called: its arguments could not be gathered.
    CallFailed(Rejection),
}

/// Where a request stands once its access token has been looked at.
#[derive(Debug)]
pub enum AccessStep {
    /// The access token holds: the request is authenticated.
    Accept(Claims),
    /// The request fails.
    Reject(AuthError),
    /// The access token is missing or has expired, and may be renewed:
    /// the hook is to be asked. Carries the claims of an expired token.
    Reauthorize(Option<Claims>),
}

/// What is to be done for a request.
#[derive(Debug)]
pub enum Plan {
    /// The request is authenticated as it is.
    Accept(Claims),
    /// The request fails.
    Reject(AuthError),
    /// A new access token is to be issued for these claims.
    RenewAccess(Claims),
    /// A new access and a new refresh token are to be issued for these
    /// claims.
    RenewBoth(Claims),
}

/// Which sources of tokens are switched on.
#[derive(Debug, Clone, Copy, PartialEq, Eq, Structural)]
pub struct EnabledSources {
    pub query: bool,
    pub header: bool,
    pub authorization_header: bool,
    pub cookie: bool,
}

impl EnabledSources {
    /// Whether `source` is switched on.
    pub open spec fn allows_spec(self, source: TokenSource) -> bool {
        match source {
            TokenSource::Query => self.query,
            TokenSource::Header => self.header,
            TokenSource::AuthorizationHeader => self.authorization_header,
            TokenSource::Cookie => self.cookie,
        }
    }

    /// Decides whether `source` is switched on.
    pub fn allows(&self, source: TokenSource) -> (r: bool)
        ensures
            r == self.allows_spec(source),
    {
        match source {
            TokenSource::Query => self.query,
            TokenSource::Header => self.header,
            TokenSource::AuthorizationHeader => self.authorization_header,
            TokenSource::Cookie => self.cookie,
        }
    }
}

/// The sources of `order` that are switched on, in the order of `order`.
pub open spec fn enabled_in_order(order: Seq<TokenSource>, enabled: EnabledSources) -> Seq<TokenSource>
    decreases order.len(),
{
    if order.len() == 0 {
        Seq::empty()
    } else if enabled.allows_spec(order.last()) {
        enabled_in_order(order.drop_last(), enabled).push(order.last())
    } else {
        enabled_in_order(order.drop_last(), enabled)
    }
}

/// Picks the sources of `order` that are switched on, in their order.
pub fn select_sources(order: &Vec<TokenSource>, enabled: EnabledSources) -> (r: Vec<TokenSource>)
    ensures
        r@ == enabled_in_order(order@, enabled),
{
    let mut selected: Vec<TokenSource> = Vec::new();
    let mut i: usize = 0;
    while i < order.len()
        invariant
            i <= order.len(),
            selected@ == enabled_in_order(order@.take(i as int), enabled),
        decreases order.len() - i,
    {
        proof {
            let next = order@.take(i + 1);
            assert(next.drop_last() =~= order@.take(i as int));
            assert(next.last() == order@[i as int]);
        }
        if enabled.allows(order[i]) {
            selected.push(order[i]);
        }
        i += 1;
    }
    assert(order@.take(order.len() as int) =~= order@);
    selected
}

/// The order in which the sources are tried where none was chosen: the
/// query, the header of the token's name, the `Authorization` header, the
/// cookie.
pub open spec fn default_precedence() -> Seq<TokenSource> {
    seq![TokenSource::Query, TokenSource::Header, TokenSource::AuthorizationHeader, TokenSource::Cookie]
}

/// What follows from the state of the access token: a token that holds
/// authenticates; one that is missing or has expired leads to the hook
/// where access tokens are renewed, and fails otherwise; any other
/// failure stands.
pub open spec fn access_step_spec(access: Presented, renew_access: bool) -> AccessStep {
    match access {
        Presented::Valid(claims) => AccessStep::Accept(claims),
        Presented::Expired(claims) => if renew_access {
            AccessStep::Reauthorize(Some(claims))
        } else {
            AccessStep::Reject(AuthError::TokenValidation(ValidationError::Expired))
        },
        Presented::Missing => if renew_access {
            AccessStep::Reauthorize(None)
        } else {
            AccessStep::Reject(AuthError::NoToken)
        },
        Presented::Invalid(e) => AccessStep::Reject(e),
    }
}

/// What the hook's answer means: a refusal and a failed call each end the
/// request with the reason given.
pub open spec fn reauthorization_spec(verdict: Reauthorization) -> Result<(), AuthError> {
    match verdict {
        Reauthorization::Approved => Ok(()),
        Reauthorization::Denied(rejection) => Err(AuthError::RefreshAuthorizerDenied(rejection)),
        Reauthorization::CallFailed(rejection) => Err(AuthError::RefreshAuthorizerCall(rejection)),
    }
}

/// What follows from the state of the refresh token once the hook has
/// approved. A refresh token that holds renews the access token, for the
/// claims of the refresh token. One that has expired renews both tokens
/// where refresh tokens are renewed: for the claims of the expired access
/// token `stale`, or for its own where the request held no access token.
/// Without a signer no renewal is possible. Any other state fails as it
/// is.
pub open spec fn renewal_spec(
    stale: Option<Claims>,
    refresh: Presented,
    renew_refresh: bool,
    has_signer: bool,
) -> Plan {
    match refresh {
        Presented::Valid(claims) => if has_signer {
            Plan::RenewAccess(claims)
        } else {
            Plan::Reject(AuthError::NoTokenSigner)
        },
        Presented::Expired(claims) => if !renew_refresh {
            Plan::Reject(AuthError::TokenValidation(ValidationError::Expired))
        } else if !has_signer {
            Plan::Reject(AuthError::NoTokenSigner)
        } else {
            match stale {
                Some(access_claims) => Plan::RenewBoth(access_claims),
                None => Plan::RenewBoth(claims),
            }
        },
        Presented::Missing => Plan::Reject(AuthError::NoToken),
        Presented::Invalid(e) => Plan::Reject(e),
    }
}

/// What follows once the access token is known to be missing or expired:
/// the hook decides first, then the refresh token.
pub open spec fn refresh_spec(
    stale: Option<Claims>,
    verdict: Reauthorization,
    refresh: Presented,
    renew_refresh: bool,
    has_signer: bool,
) -> Plan {
    match reauthorization_spec(verdict) {
        Err(e) => Plan::Reject(e),
        Ok(()) => renewal_spec(stale, refresh, renew_refresh, has_signer),
    }
}

/// What is to be done for a request, from the states of its two tokens
/// and the hook's answer.
pub open spec fn plan_spec(
    access: Presented,
    verdict: Reauthorization,
    refresh: Presented,
    renew_access: bool,
    renew_refresh: bool,
    has_signer: bool,
) -> Plan {
    match access_step_spec(access, renew_access) {
        AccessStep::Accept(claims) => Plan::Accept(claims),
        AccessStep::Reject(e) => Plan::Reject(e),
        AccessStep::Reauthorize(stale) => refresh_spec(stale, verdict, refresh, renew_refresh, has_signer),
    }
}

/// The answer to a request that holds nothing at all: no token is found,
/// unless the hook is asked first and does not approve.
pub open spec fn bare_answer(verdict: Reauthorization, renew_access: bool) -> AuthResult<Authorized> {
    if !renew_access {
        Err(AuthError::NoToken)
    } else {
        match reauthorization_spec(verdict) {
            Err(e) => Err(e),
            Ok(()) => Err(AuthError::NoToken),
        }
    }
}

/// Decides what follows from the state of the access token.
pub fn access_step(access: Presented, renew_access: bool) -> (r: AccessStep)
    ensures
        r == access_step_spec(access, renew_access),
{
    match access {
        Presented::Valid(claims) => AccessStep::Accept(claims),
        Presented::Expired(claims) => if renew_access {
            AccessStep::Reauthorize(Some(claims))
        } else {
            AccessStep::Reject(AuthError::TokenValidation(ValidationError::Expired))
        },
        Presented::Missing => if renew_access {
            AccessStep::Reauthorize(None)
        } else {
            AccessStep::Reject(AuthError::NoToken)
        },
        Presented::Invalid(e) => AccessStep::Reject(e),
    }
}

/// Turns the hook's answer into the failure that it means, if any.
pub fn reauthorization_result(verdict: Reauthorization) -> (r: Result<(), AuthError>)
    ensures
        r == reauthorization_spec(verdict),
{
    match verdict {
        Reauthorization::Approved => Ok(()),
        Reauthorization::Denied(rejection) => Err(AuthError::RefreshAuthorizerDenied(rejection)),
        Reauthorization::CallFailed(rejection) => Err(AuthError::RefreshAuthorizerCall(rejection)),
    }
}

/// Decides what follows from the state of the refresh token once the hook
/// has approved.
pub fn renewal_plan(stale: Option<Claims>, refresh: Presented, renew_refresh: bool, has_signer: bool) -> (r:
    Plan)
    ensures
        r == renewal_spec(stale, refresh, renew_refresh, has_signer),
{
    match refresh {
        Presented::Valid(claims) => if has_signer {
            Plan::RenewAccess(claims)
        } else {
            Plan::Reject(AuthError::NoTokenSigner)
        },
        Presented::Expired(claims) => if !renew_refresh {
            Plan::Reject(AuthError::TokenValidation(ValidationError::Expired))
        } else if !has_signer {
            Plan::Reject(AuthError::NoTokenSigner)
        } else {
            match stale {
                Some(access_claims) => Plan::RenewBoth(access_claims),
                None => Plan::RenewBoth(claims),
            }
        },
        Presented::Missing => Plan::Reject(AuthError::NoToken),
        Presented::Invalid(e) => Plan::Reject(e),
    }
}

/// Whether `update` holds a new access cookie as `signer` issues it for
/// `custom` at `issued_at`.
pub open spec fn has_access_cookie(
    update: TokenUpdate,
    signer: TokenSignerView,
    custom: serde_json::Value,
    issued_at: int,
) -> bool {
    &&& update.access_cookie matches Some(cookie)
    &&& issued_token(signer, custom, signer.access_token_lifetime as int, issued_at) matches Ok(token)
    &&& is_token_cookie(cookie, signer.access_token_name, token)
}

/// Whether `update` holds a new refresh cookie as `signer` issues it for
/// `custom` at `issued_at`.
pub open spec fn has_refresh_cookie(
    update: TokenUpdate,
    signer: TokenSignerView,
    custom: serde_json::Value,
    issued_at: int,
) -> bool {
    &&& update.refresh_cookie matches Some(cookie)
    &&& issued_token(signer, custom, signer.refresh_token_lifetime as int, issued_at) matches Ok(token)
    &&& is_token_cookie(cookie, signer.refresh_token_name, token)
}

/// Whether `r` is what carrying out `plan` gives, with tokens issued at
/// `issued_at`. An accepted request keeps its claims and gets no update.
/// A renewal gives the claims and the new cookies: the access cookie
/// alone, or both; it fails where no signer is there or the signer fails,
/// the access token first.
pub open spec fn carried_out(
    signer: Option<TokenSignerView>,
    plan: Plan,
    issued_at: int,
    r: AuthResult<Authorized>,
) -> bool {
    match plan {
        Plan::Accept(claims) => r matches Ok(authorized) && authorized.claims == claims.custom
            && authorized.token_update is None,
        Plan::Reject(e) => r == Err::<Authorized, AuthError>(e),
        Plan::RenewAccess(claims) => match signer {
            None => r == Err::<Authorized, AuthError>(AuthError::NoTokenSigner),
            Some(signer) => match issued_token(
                signer,
                claims.custom,
                signer.access_token_lifetime as int,
                issued_at,
            ) {
                Err(e) => r == Err::<Authorized, AuthError>(AuthError::TokenCreation(e)),
                Ok(_) => {
                    &&& r matches Ok(authorized)
                    &&& authorized.claims == claims.custom
                    &&& authorized.token_update matches Some(update)
                    &&& has_access_cookie(update, signer, claims.custom, issued_at)
                    &&& update.refresh_cookie is None
                },
            },
        },
        Plan::RenewBoth(claims) => match signer {
            None => r == Err::<Authorized, AuthError>(AuthError::NoTokenSigner),
            Some(signer) => match issued_token(
                signer,
                claims.custom,
                signer.access_token_lifetime as int,
                issued_at,
            ) {
                Err(e) => r == Err::<Authorized, AuthError>(AuthError::TokenCreation(e)),
                Ok(_) => match issued_token(
                    signer,
                    claims.custom,
                    signer.refresh_token_lifetime as int,
                    issued_at,
                ) {
                    Err(e) => r == Err::<Authorized, AuthError>(AuthError::TokenCreation(e)),
                    Ok(_) => {
                        &&& r matches Ok(authorized)
                        &&& authorized.claims == claims.custom
                        &&& authorized.token_update matches Some(update)
                        &&& has_access_cookie(update, signer, claims.custom, issued_at)
                        &&& has_refresh_cookie(update, signer, claims.custom, issued_at)
                    },
                },
            },
        },
    }
}

/// The views of the signer, where there is one.
pub open spec fn signer_view(signer: Option<TokenSigner>) -> Option<TokenSignerView> {
    match signer {
        Some(signer) => Some(signer@),
        None => None,
    }
}

/// Carries out `plan`: issues, at `issued_at`, the tokens that it asks
/// for.
pub fn carry_out(signer: &Option<TokenSigner>, plan: Plan, issued_at: i64) -> (r: AuthResult<Authorized>)
    ensures
        carried_out(signer_view(*signer), plan, issued_at as int, r),
{
    match plan {
        Plan::Accept(claims) => Ok(Authorized { claims: claims.custom, token_update: None }),
        Plan::Reject(e) => Err(e),
        Plan::RenewAccess(claims) => match signer {
            None => Err(AuthError::NoTokenSigner),
            Some(signer) => match signer.create_access_cookie_at(&claims.custom, issued_at) {
                Err(e) => Err(e),
                Ok(access_cookie) => Ok(
                    Authorized {
                        claims: claims.custom,
                        token_update: Some(
                            TokenUpdate { access_cookie: Some(access_cookie), refresh_cookie: None },
                        ),
                    },
                ),
            },
        },
        Plan::RenewBoth(claims) => match signer {
            None => Err(AuthError::NoTokenSigner),
            Some(signer) => match signer.create_access_cookie_at(&claims.custom, issued_at) {
                Err(e) => Err(e),
                Ok(access_cookie) => match signer.create_refresh_cookie_at(&claims.custom, issued_at) {
                    Err(e) => Err(e),
                    Ok(refresh_cookie) => Ok(
                        Authorized {
                            claims: claims.custom,
                            token_update: Some(
                                TokenUpdate {
                                    access_cookie: Some(access_cookie),
                                    refresh_cookie: Some(refresh_cookie),
                                },
                            ),
                        },
                    ),
                },
            },
        },
    }
}

/// The cookies of `update` in the order in which a response gets them:
/// the access cookie before the refresh cookie.
pub open spec fn cookies_spec(update: Option<TokenUpdate>) -> Seq<Cookie> {
    match update {
        None => Seq::empty(),
        Some(update) => {
            let access = match update.access_cookie {
                Some(cookie) => seq![cookie],
                None => Seq::empty(),
            };
            match update.refresh_cookie {
                Some(cookie) => access.push(cookie),
                None => access,
            }
        },
    }
}

/// Lists the cookies that the response to an authenticated request is to
/// carry.
pub fn cookies_to_set(update: Option<TokenUpdate>) -> (r: Vec<Cookie>)
    ensures
        r@ == cookies_spec(update),
{
    let mut cookies: Vec<Cookie> = Vec::new();
    match update {
        None => {},
        Some(update) => {
            match update.access_cookie {
                Some(cookie) => {
                    cookies.push(cookie);
                },
                None => {},
            }
            match update.refresh_cookie {
                Some(cookie) => {
                    cookies.push(cookie);
                },
                None => {},
            }
        },
    }
    cookies
}

/// The immutable settings by which requests are judged. It is built once
/// and then only read.
#[derive(Debug)]
pub struct Authority {
    /// The name under which the access token travels.
    pub access_token_name: String,
    /// Whether a missing or expired access token is renewed from the
    /// refresh token.
    pub renew_access_token_automatically: bool,
    /// The name under which the refresh token travels.
    pub refresh_token_name: String,
    /// Whether an expired refresh token is renewed too.
    pub renew_refresh_token_automatically: bool,
    /// The sources that are switched on, in the order in which they are
    /// tried.
    pub sources: Vec<TokenSource>,
    /// The key against which tokens are checked.
    pub verifying_key: Vec<u8>,
    /// The algorithm by which tokens are checked.
    pub algorithm: Algorithm,
    /// The clock against which tokens are held, and the leeway.
    pub time_options: TimeOptions,
    /// The signer that renews tokens. Without one nothing is renewed.
    pub token_signer: Option<TokenSigner>,
}

/// An authority as a plain value.
pub struct AuthorityView {
    pub access_token_name: Seq<char>,
    pub renew_access_token_automatically: bool,
    pub refresh_token_name: Seq<char>,
    pub renew_refresh_token_automatically: bool,
    pub sources: Seq<TokenSource>,
    pub verifying_key: Seq<u8>,
    pub algorithm: Algorithm,
    pub time_options: TimeOptions,
    pub token_signer: Option<TokenSignerView>,
}

impl View for Authority {
    type V = AuthorityView;

    open spec fn view(&self) -> AuthorityView {
        AuthorityView {
            access_token_name: self.access_token_name@,
            renew_access_token_automatically: self.renew_access_token_automatically,
            refresh_token_name: self.refresh_token_name@,
            renew_refresh_token_automatically: self.renew_refresh_token_automatically,
            sources: self.sources@,
            verifying_key: self.verifying_key@,
            algorithm: self.algorithm,
            time_options: self.time_options,
            token_signer: signer_view(self.token_signer),
        }
    }
}

impl AuthorityView {
    /// What is known at `now` of the token that `request` holds under
    /// `name`: the first source that holds one gives it, and it is then
    /// parsed, checked against the key and held against the clock.
    pub open spec fn presented(self, request: ServiceRequest, name: Seq<char>, now: int) -> Presented {
        match request.token_spec(self.sources, name) {
            None => Presented::Missing,
            Some(token) => examined(
                self.algorithm,
                self.verifying_key,
                self.time_options.leeway as int,
                now,
                token,
            ),
        }
    }

    /// Whether the token that `request` holds under `name` is malformed:
    /// it has the wrong number of segments, or its segments are not
    /// validly encoded.
    pub open spec fn holds_malformed(self, request: ServiceRequest, name: Seq<char>) -> bool {
        request.token_spec(self.sources, name) is Some && malformed(
            request.token_spec(self.sources, name)->0,
        )
    }

    /// Where `request` stands at `now` once its access token has been
    /// looked at.
    pub open spec fn access_step(self, request: ServiceRequest, now: int) -> AccessStep {
        access_step_spec(
            self.presented(request, self.access_token_name, now),
            self.renew_access_token_automatically,
        )
    }

    /// What is to be done once the hook has answered on a request whose
    /// access token is missing or has expired.
    pub open spec fn refresh_plan(
        self,
        request: ServiceRequest,
        stale: Option<Claims>,
        verdict: Reauthorization,
        now: int,
    ) -> Plan {
        refresh_spec(
            stale,
            verdict,
            self.presented(request, self.refresh_token_name, now),
            self.renew_refresh_token_automatically,
            self.token_signer is Some,
        )
    }

    /// What is to be done for `request` at `now`, given the hook's answer.
    pub open spec fn plan(self, request: ServiceRequest, verdict: Reauthorization, now: int) -> Plan {
        plan_spec(
            self.presented(request, self.access_token_name, now),
            verdict,
            self.presented(request, self.refresh_token_name, now),
            self.renew_access_token_automatically,
            self.renew_refresh_token_automatically,
            self.token_signer is Some,
        )
    }

    /// Whether `r` is the authority's answer to `request`, judged at `now`
    /// with the hook's answer `verdict`, new tokens being issued at
    /// `issued_at`.
    pub open spec fn verified(
        self,
        request: ServiceRequest,
        verdict: Reauthorization,
        now: int,
        issued_at: int,
        r: AuthResult<Authorized>,
    ) -> bool {
        carried_out(self.token_signer, self.plan(request, verdict, now), issued_at, r)
    }

    /// Whether `issued_at` may be a reading of the clock by which new
    /// tokens are stamped.
    pub open spec fn may_issue_at(self, issued_at: int) -> bool {
        match self.token_signer {
            Some(signer) => signer.time_options.clock.may_read(issued_at),
            None => true,
        }
    }
}

/// The settings of an authority, as far as they have been chosen.
#[derive(Debug)]
pub struct AuthorityBuilder {
    pub access_token_name: Option<String>,
    pub renew_access_token_automatically: bool,
    pub refresh_token_name: Option<String>,
    pub renew_refresh_token_automatically: bool,
    pub enabled: EnabledSources,
    pub precedence: Option<Vec<TokenSource>>,
    pub verifying_key: Option<Vec<u8>>,
    pub algorithm: Option<Algorithm>,
    pub time_options: Option<TimeOptions>,
    pub token_signer: Option<TokenSigner>,
}

impl AuthorityBuilder {
    /// The name that was chosen; else that of the signer; else `default`.
    pub open spec fn resolved_name(
        chosen: Option<String>,
        from_signer: Option<Seq<char>>,
        default: Seq<char>,
    ) -> Seq<char> {
        match chosen {
            Some(name) => name@,
            None => match from_signer {
                Some(name) => name,
                None => default,
            },
        }
    }

    /// What `build` gives. The key is required. The algorithm and the
    /// time options are those chosen, else those of the signer, else they
    /// are missing; the names are those chosen, else those of the signer,
    /// else the defaults. The sources are those switched on, in the order
    /// chosen or else in the default order.
    pub open spec fn built_spec(self) -> Result<AuthorityView, BuilderError> {
        let signer = signer_view(self.token_signer);
        if self.verifying_key is None {
            Err(BuilderError::UninitializedField(RequiredField::VerifyingKey))
        } else if self.algorithm is None && signer is None {
            Err(BuilderError::UninitializedField(RequiredField::Algorithm))
        } else if self.time_options is None && signer is None {
            Err(BuilderError::UninitializedField(RequiredField::TimeOptions))
        } else {
            Ok(
                AuthorityView {
                    access_token_name: Self::resolved_name(
                        self.access_token_name,
                        match signer {
                            Some(signer) => Some(signer.access_token_name),
                            None => None,
                        },
                        DEFAULT_ACCESS_TOKEN_NAME@,
                    ),
                    renew_access_token_automatically: self.renew_access_token_automatically,
                    refresh_token_name: Self::resolved_name(
                        self.refresh_token_name,
                        match signer {
                            Some(signer) => Some(signer.refresh_token_name),
                            None => None,
                        },
                        DEFAULT_REFRESH_TOKEN_NAME@,
                    ),
                    renew_refresh_token_automatically: self.renew_refresh_token_automatically,
                    sources: enabled_in_order(
                        match self.precedence {
                            Some(order) => order@,
                            None => default_precedence(),
                        },
                        self.enabled,
                    ),
                    verifying_key: self.verifying_key->0@,
                    algorithm: match self.algorithm {
                        Some(algorithm) => algorithm,
                        None => signer->0.algorithm,
                    },
                    time_options: match self.time_options {
                        Some(options) => options,
                        None => signer->0.time_options,
                    },
                    token_signer: signer,
                },
            )
        }
    }

    /// Chooses the name under which the access token travels.
    pub fn access_token_name(self, name: String) -> (r: Self)
        ensures
            r == (AuthorityBuilder { access_token_name: Some(name), ..self }),
    {
        let mut builder = self;
        builder.access_token_name = Some(name);
        builder
    }

    /// Chooses whether a missing or expired access token is renewed.
    pub fn renew_access_token_automatically(self, renew: bool) -> (r: Self)
        ensures
            r == (AuthorityBuilder { renew_access_token_automatically: renew, ..self }),
    {
        let mut builder = self;
        builder.renew_access_token_automatically = renew;
        builder
    }

    /// Chooses the name under which the refresh token travels.
    pub fn refresh_token_name(self, name: String) -> (r: Self)
        ensures
            r == (AuthorityBuilder { refresh_token_name: Some(name), ..self }),
    {
        let mut builder = self;
        builder.refresh_token_name = Some(name);
        builder
    }

    /// Chooses whether an expired refresh token is renewed.
    pub fn renew_refresh_token_automatically(self, renew: bool) -> (r: Self)
        ensures
            r == (AuthorityBuilder { renew_refresh_token_automatically: renew, ..self }),
    {
        let mut builder = self;
        builder.renew_refresh_token_automatically = renew;
        builder
    }

    /// Switches the headers of the tokens' names on or off.
    pub fn enable_header_tokens(self, enable: bool) -> (r: Self)
        ensures
            r == (AuthorityBuilder { enabled: EnabledSources { header: enable, ..self.enabled }, ..self }),
    {
        let mut builder = self;
        builder.enabled.header = enable;
        builder
    }

    /// Switches the `Authorization` header on or off.
    pub fn enable_authorization_header(self, enable: bool) -> (r: Self)
        ensures
            r == (AuthorityBuilder {
                enabled: EnabledSources { authorization_header: enable, ..self.enabled },
                ..self
            }),
    {
        let mut builder = self;
        builder.enabled.authorization_header = enable;
        builder
    }

    /// Switches the parameters of the query on or off.
    pub fn enable_query_tokens(self, enable: bool) -> (r: Self)
        ensures
            r == (AuthorityBuilder { enabled: EnabledSources { query: enable, ..self.enabled }, ..self }),
    {
        let mut builder = self;
        builder.enabled.query = enable;
        builder
    }

    /// Switches the cookies on or off.
    pub fn enable_cookie_tokens(self, enable: bool) -> (r: Self)
        ensures
            r == (AuthorityBuilder { enabled: EnabledSources { cookie: enable, ..self.enabled }, ..self }),
    {
        let mut builder = self;
        builder.enabled.cookie = enable;
        builder
    }

    /// Chooses the order in which the sources are tried.
    pub fn precedence(self, order: Vec<TokenSource>) -> (r: Self)
        ensures
            r == (AuthorityBuilder { precedence: Some(order), ..self }),
    {
        let mut builder = self;
        builder.precedence = Some(order);
        builder
    }

    /// Chooses the key against which tokens are checked.
    pub fn verifying_key(self, key: Vec<u8>) -> (r: Self)
        ensures
            r == (AuthorityBuilder { verifying_key: Some(key), ..self }),
    {
        let mut builder = self;
        builder.verifying_key = Some(key);
        builder
    }

    /// Chooses the algorithm by which tokens are checked.
    pub fn algorithm(self, algorithm: Algorithm) -> (r: Self)
        ensures
            r == (AuthorityBuilder { algorithm: Some(algorithm), ..self }),
    {
        let mut builder = self;
        builder.algorithm = Some(algorithm);
        builder
    }

    /// Chooses the clock and the leeway.
    pub fn time_options(self, options: TimeOptions) -> (r: Self)
        ensures
            r == (AuthorityBuilder { time_options: Some(options), ..self }),
    {
        let mut builder = self;
        builder.time_options = Some(options);
        builder
    }

    /// Chooses the signer, or none.
    pub fn token_signer(self, signer: Option<TokenSigner>) -> (r: Self)
        ensures
            r == (AuthorityBuilder { token_signer: signer, ..self }),
    {
        let mut builder = self;
        builder.token_signer = signer;
        builder
    }

    /// Builds the authority, or names the first field that is missing.
    pub fn build(self) -> (r: Result<Authority, BuilderError>)
        ensures
            match r {
                Ok(authority) => self.built_spec() == Ok::<AuthorityView, BuilderError>(authority@),
                Err(e) => self.built_spec() == Err::<AuthorityView, BuilderError>(e),
            },
    {
        let verifying_key = match self.verifying_key {
            Some(key) => key,
            None => {
                return Err(BuilderError::UninitializedField(RequiredField::VerifyingKey));
            },
        };
        let algorithm = match self.algorithm {
            Some(algorithm) => algorithm,
            None => match &self.token_signer {
                Some(signer) => signer.algorithm,
                None => {
                    return Err(BuilderError::UninitializedField(RequiredField::Algorithm));
                },
            },
        };
        let time_options = match self.time_options {
            Some(options) => options,
            None => match &self.token_signer {
                Some(signer) => signer.time_options,
                None => {
                    return Err(BuilderError::UninitializedField(RequiredField::TimeOptions));
                },
            },
        };
        let access_token_name = match self.access_token_name {
            Some(name) => name,
            None => match &self.token_signer {
                Some(signer) => signer.access_token_name.clone(),
                None => DEFAULT_ACCESS_TOKEN_NAME.to_owned(),
            },
        };
        let refresh_token_name = match self.refresh_token_name {
            Some(name) => name,
            None => match &self.token_signer {
                Some(signer) => signer.refresh_token_name.clone(),
                None => DEFAULT_REFRESH_TOKEN_NAME.to_owned(),
            },
        };
        let sources = match &self.precedence {
            Some(order) => select_sources(order, self.enabled),
            None => {
                let mut order: Vec<TokenSource> = Vec::new();
                order.push(TokenSource::Query);
                order.push(TokenSource::Header);
                order.push(TokenSource::AuthorizationHeader);
                order.push(TokenSource::Cookie);
                assert(order@ =~= default_precedence());
                select_sources(&order, self.enabled)
            },
        };
        Ok(
            Authority {
                access_token_name,
                renew_access_token_automatically: self.renew_access_token_automatically,
                refresh_token_name,
                renew_refresh_token_automatically: self.renew_refresh_token_automatically,
                sources,
                verifying_key,
                algorithm,
                time_options,
                token_signer: self.token_signer,
            },
        )
    }
}

impl Authority {
    /// Starts an authority: a builder with nothing chosen, in which
    /// access tokens are renewed, refresh tokens are not, and only the
    /// cookies are switched on.
    pub fn new() -> (r: AuthorityBuilder)
        ensures
            r == (AuthorityBuilder {
                access_token_name: None,
                renew_access_token_automatically: true,
                refresh_token_name: None,
                renew_refresh_token_automatically: false,
                enabled: EnabledSources {
                    query: false,
                    header: false,
                    authorization_header: false,
                    cookie: true,
                },
                precedence: None,
                verifying_key: None,
                algorithm: None,
                time_options: None,
                token_signer: None,
            }),
    {
        AuthorityBuilder {
            access_token_name: None,
            renew_access_token_automatically: true,
            refresh_token_name: None,
            renew_refresh_token_automatically: false,
            enabled: EnabledSources { query: false, header: false, authorization_header: false, cookie: true },
            precedence: None,
            verifying_key: None,
            algorithm: None,
            time_options: None,
            token_signer: None,
        }
    }

    /// Returns a copy of the signer, where there is one.
    pub fn token_signer(&self) -> (r: Option<TokenSigner>)
        ensures
            signer_view(r) == self@.token_signer,
    {
        match &self.token_signer {
            Some(signer) => Some(signer.clone()),
            None => None,
        }
    }

    /// Looks for the token `token_name` in the sources that are switched
    /// on, and judges the one found at `now`.
    pub fn validate_token(&self, request: &ServiceRequest, token_name: &str, now: i64) -> (r: Presented)
        ensures
            r == self@.presented(*request, token_name@, now as int),
            request.is_bare() ==> r is Missing,
            self@.holds_malformed(*request, token_name@) ==> r == Presented::Invalid(
                AuthError::TokenParse(ParseError::InvalidTokenStructure),
            ),
    {
        match request.extract(token_name, &self.sources) {
            None => Presented::Missing,
            Some(token) => examine(
                token.as_str(),
                self.algorithm,
                self.verifying_key.as_slice(),
                self.time_options.leeway,
                now,
            ),
        }
    }

    /// Judges the access token of `request` at `now`.
    pub fn validate_access_token(&self, request: &ServiceRequest, now: i64) -> (r: Presented)
        ensures
            r == self@.presented(*request, self@.access_token_name, now as int),
            request.is_bare() ==> r is Missing,
            self@.holds_malformed(*request, self@.access_token_name) ==> r == Presented::Invalid(
                AuthError::TokenParse(ParseError::InvalidTokenStructure),
            ),
    {
        self.validate_token(request, self.access_token_name.as_str(), now)
    }

    /// Judges the refresh token of `request` at `now`.
    pub fn validate_refresh_token(&self, request: &ServiceRequest, now: i64) -> (r: Presented)
        ensures
            r == self@.presented(*request, self@.refresh_token_name, now as int),
            request.is_bare() ==> r is Missing,
            self@.holds_malformed(*request, self@.refresh_token_name) ==> r == Presented::Invalid(
                AuthError::TokenParse(ParseError::InvalidTokenStructure),
            ),
    {
        self.validate_token(request, self.refresh_token_name.as_str(), now)
    }

    /// The first step on a request: looks at the access token and says
    /// whether the request is authenticated, fails, or needs the hook.
    pub fn check_access_at(&self, request: &ServiceRequest, now: i64) -> (r: AccessStep)
        ensures
            r == self@.access_step(*request, now as int),
            request.is_bare() ==> r == access_step_spec(
                Presented::Missing,
                self.renew_access_token_automatically,
            ),
            self@.holds_malformed(*request, self@.access_token_name) ==> r == AccessStep::Reject(
                AuthError::TokenParse(ParseError::InvalidTokenStructure),
            ),
    {
        access_step(self.validate_access_token(request, now), self.renew_access_token_automatically)
    }

    /// The second step, once the hook has answered: looks at the refresh
    /// token and renews what is due, the new tokens being issued at
    /// `issued_at`. `stale` holds the claims of the expired access token.
    pub fn refresh_at(
        &self,
        request: &ServiceRequest,
        stale: Option<Claims>,
        verdict: Reauthorization,
        now: i64,
        issued_at: i64,
    ) -> (r: AuthResult<Authorized>)
        ensures
            carried_out(
                self@.token_signer,
                self@.refresh_plan(*request, stale, verdict, now as int),
                issued_at as int,
                r,
            ),
            request.is_bare() ==> r == bare_answer(verdict, true),
            verdict is Approved && self@.holds_malformed(*request, self@.refresh_token_name) ==> r == Err::<
                Authorized,
                AuthError,
            >(AuthError::TokenParse(ParseError::InvalidTokenStructure)),
    {
        match reauthorization_result(verdict) {
            Err(e) => Err(e),
            Ok(()) => {
                let refresh = self.validate_refresh_token(request, now);
                let plan = renewal_plan(
                    stale,
                    refresh,
                    self.renew_refresh_token_automatically,
                    self.token_signer.is_some(),
                );
                carry_out(&self.token_signer, plan, issued_at)
            },
        }
    }

    /// Answers `request` at the instant `now`, given what the hook
    /// answers where it is asked; new tokens are issued at `issued_at`.
    pub fn verify_service_request_at(
        &self,
        request: &ServiceRequest,
        verdict: Reauthorization,
        now: i64,
        issued_at: i64,
    ) -> (r: AuthResult<Authorized>)
        ensures
            self@.verified(*request, verdict, now as int, issued_at as int, r),
            request.is_bare() ==> r == bare_answer(verdict, self.renew_access_token_automatically),
            self@.holds_malformed(*request, self@.access_token_name) ==> r == Err::<Authorized, AuthError>(
                AuthError::TokenParse(ParseError::InvalidTokenStructure),
            ),
    {
        match self.check_access_at(request, now) {
            AccessStep::Accept(claims) => Ok(Authorized { claims: claims.custom, token_update: None }),
            AccessStep::Reject(e) => Err(e),
            AccessStep::Reauthorize(stale) => self.refresh_at(request, stale, verdict, now, issued_at),
        }
    }

    /// Answers `request`: tokens are held against the authority's clock,
    /// and new ones are stamped by the signer's.
    pub fn verify_service_request(&self, request: &ServiceRequest, verdict: Reauthorization) -> (r:
        AuthResult<Authorized>)
        ensures
            exists|now: int, issued_at: int|
                self.time_options.clock.may_read(now) && self@.may_issue_at(issued_at)
                    && #[trigger] self@.verified(*request, verdict, now, issued_at, r),
            request.is_bare() ==> r == bare_answer(verdict, self.renew_access_token_automatically),
            self@.holds_malformed(*request, self@.access_token_name) ==> r == Err::<Authorized, AuthError>(
                AuthError::TokenParse(ParseError::InvalidTokenStructure),
            ),
    {
        let now: i64 = self.time_options.now_rounded_up();
        let issued_at: i64 = match &self.token_signer {
            Some(signer) => signer.time_options.now(),
            None => now,
        };
        let r = self.verify_service_request_at(request, verdict, now, issued_at);
        assert(self.time_options.clock.may_read(now as int) && self@.may_issue_at(issued_at as int)
            && self@.verified(*request, verdict, now as int, issued_at as int, r));
        r
    }
}

/// Where the access token has expired or is missing and the hook
/// refuses, the request fails with the hook's reason and nothing is
/// renewed: whatever the refresh token is like, and whether or not
/// refresh tokens are renewed.
pub proof fn lemma_denied_renewal_gives_no_update(
    authority: AuthorityView,
    request: ServiceRequest,
    rejection: Rejection,
    now: int,
    issued_at: int,
    r: AuthResult<Authorized>,
)
    requires
        authority.renew_access_token_automatically,
        authority.presented(request, authority.access_token_name, now) is Expired || authority.presented(
            request,
            authority.access_token_name,
            now,
        ) is Missing,
        authority.verified(request, Reauthorization::Denied(rejection), now, issued_at, r),
    ensures
        authority.plan(request, Reauthorization::Denied(rejection), now) == Plan::Reject(
            AuthError::RefreshAuthorizerDenied(rejection),
        ),
        r == Err::<Authorized, AuthError>(AuthError::RefreshAuthorizerDenied(rejection)),
{
}

/// Where the access token has expired or is missing, the refresh token
/// holds and the hook approves, the renewal issues one token: an access
/// token for the claims of the refresh token, under the name and with
/// the lifetime of access tokens. No refresh token is issued. The
/// request fails only if the signer does.
pub proof fn lemma_renewal_carries_refresh_claims(
    authority: AuthorityView,
    request: ServiceRequest,
    claims: Claims,
    now: int,
    issued_at: int,
    r: AuthResult<Authorized>,
)
    requires
        authority.renew_access_token_automatically,
        authority.token_signer is Some,
        authority.presented(request, authority.access_token_name, now) is Expired || authority.presented(
            request,
            authority.access_token_name,
            now,
        ) is Missing,
        authority.presented(request, authority.refresh_token_name, now) == Presented::Valid(claims),
        authority.verified(request, Reauthorization::Approved, now, issued_at, r),
    ensures
        authority.plan(request, Reauthorization::Approved, now) == Plan::RenewAccess(claims),
        match issued_token(
            authority.token_signer->0,
            claims.custom,
            authority.token_signer->0.access_token_lifetime as int,
            issued_at,
        ) {
            Err(e) => r == Err::<Authorized, AuthError>(AuthError::TokenCreation(e)),
            Ok(token) => {
                &&& r matches Ok(authorized)
                &&& authorized.claims == claims.custom
                &&& authorized.token_update matches Some(update)
                &&& update.refresh_cookie is None
                &&& update.access_cookie matches Some(cookie)
                &&& is_token_cookie(cookie, authority.token_signer->0.access_token_name, token)
            },
        },
{
}

/// A request whose access token is malformed fails with the structure
/// of the token, whatever the clock, the hook and the refresh token: a
/// malformed token is never renewed.
pub proof fn lemma_malformed_access_token_fails(
    authority: AuthorityView,
    request: ServiceRequest,
    verdict: Reauthorization,
    now: int,
    issued_at: int,
    r: AuthResult<Authorized>,
)
    requires
        authority.holds_malformed(request, authority.access_token_name),
        authority.verified(request, verdict, now, issued_at, r),
    ensures
        authority.plan(request, verdict, now) == Plan::Reject(
            AuthError::TokenParse(ParseError::InvalidTokenStructure),
        ),
        r == Err::<Authorized, AuthError>(AuthError::TokenParse(ParseError::InvalidTokenStructure)),
{
}

/// Where the access token has expired or is missing and the hook
/// approves, a malformed refresh token fails the request with the
/// structure of the token.
pub proof fn lemma_malformed_refresh_token_fails(
    authority: AuthorityView,
    request: ServiceRequest,
    now: int,
    issued_at: int,
    r: AuthResult<Authorized>,
)
    requires
        authority.renew_access_token_automatically,
        authority.presented(request, authority.access_token_name, now) is Expired || authority.presented(
            request,
            authority.access_token_name,
            now,
        ) is Missing,
        authority.holds_malformed(request, authority.refresh_token_name),
        authority.verified(request, Reauthorization::Approved, now, issued_at, r),
    ensures
        r == Err::<Authorized, AuthError>(AuthError::TokenParse(ParseError::InvalidTokenStructure)),
{
}

/// A request whose access token holds is authenticated as it is: the
/// claims are those of the access token, nothing is renewed, and neither
/// the hook nor the refresh token is looked at.
pub proof fn lemma_valid_access_needs_nothing_else(
    authority: AuthorityView,
    request: ServiceRequest,
    claims: Claims,
    verdict: Reauthorization,
    now: int,
    issued_at: int,
    r: AuthResult<Authorized>,
)
    requires
        authority.presented(request, authority.access_token_name, now) == Presented::Valid(claims),
        authority.verified(request, verdict, now, issued_at, r),
    ensures
        r matches Ok(authorized) && authorized.claims == claims.custom && authorized.token_update is None,
{
}

/// Where access tokens are not renewed, a request whose access token has
/// expired fails with just that, and one without an access token with
/// that.
pub proof fn lemma_no_renewal_fails_as_found(
    authority: AuthorityView,
    request: ServiceRequest,
    verdict: Reauthorization,
    now: int,
    issued_at: int,
    r: AuthResult<Authorized>,
)
    requires
        !authority.renew_access_token_automatically,
        authority.verified(request, verdict, now, issued_at, r),
    ensures
        authority.presented(request, authority.access_token_name, now) is Expired ==> r == Err::<
            Authorized,
            AuthError,
        >(AuthError::TokenValidation(ValidationError::Expired)),
        authority.presented(request, authority.access_token_name, now) is Missing ==> r == Err::<
            Authorized,
            AuthError,
        >(AuthError::NoToken),
{
}

/// No request is let through unauthenticated: a plan that does not
/// reject rests on a genuine token. An accepted request holds a valid
/// access token; a renewal has the hook's approval and a genuine refresh
/// token, valid or, where both are renewed, expired.
pub proof fn lemma_success_rests_on_a_genuine_token(
    access: Presented,
    verdict: Reauthorization,
    refresh: Presented,
    renew_access: bool,
    renew_refresh: bool,
    has_signer: bool,
)
    ensures
        match plan_spec(access, verdict, refresh, renew_access, renew_refresh, has_signer) {
            Plan::Accept(claims) => access == Presented::Valid(claims),
            Plan::Reject(_) => true,
            Plan::RenewAccess(claims) => {
                &&& renew_access
                &&& has_signer
                &&& verdict is Approved
                &&& refresh == Presented::Valid(claims)
            },
            Plan::RenewBoth(claims) => {
                &&& renew_access
                &&& renew_refresh
                &&& has_signer
                &&& verdict is Approved
                &&& refresh is Expired
                &&& (access == Presented::Expired(claims) || (access is Missing && refresh
                    == Presented::Expired(claims)))
            },
        },
{
}

/// Where access tokens are not renewed, neither the hook nor the refresh
/// token has any say.
pub proof fn lemma_no_renewal_ignores_hook(
    access: Presented,
    verdict: Reauthorization,
    other_verdict: Reauthorization,
    refresh: Presented,
    other_refresh: Presented,
    renew_refresh: bool,
    has_signer: bool,
)
    ensures
        plan_spec(access, verdict, refresh, false, renew_refresh, has_signer) == plan_spec(
            access,
            other_verdict,
            other_refresh,
            false,
            renew_refresh,
            has_signer,
        ),
        plan_spec(access, verdict, refresh, false, renew_refresh, has_signer) is Accept || plan_spec(
            access,
            verdict,
            refresh,
            false,
            renew_refresh,
            has_signer,
        ) is Reject,
{
}

/// Without a signer nothing is renewed: every plan accepts or rejects.
pub proof fn lemma_no_signer_no_renewal(
    access: Presented,
    verdict: Reauthorization,
    refresh: Presented,
    renew_access: bool,
    renew_refresh: bool,
)
    ensures
        plan_spec(access, verdict, refresh, renew_access, renew_refresh, false) is Accept || plan_spec(
            access,
            verdict,
            refresh,
            renew_access,
            renew_refresh,
            false,
        ) is Reject,
{
}

/// Only sources that are switched on are tried, and each of them that
/// the order names is.
pub proof fn lemma_enabled_sources(order: Seq<TokenSource>, enabled: EnabledSources, source: TokenSource)
    ensures
        enabled_in_order(order, enabled).contains(source) <==> order.contains(source) && enabled.allows_spec(
            source,
        ),
    decreases order.len(),
{
    if order.len() > 0 {
        let rest = order.drop_last();
        lemma_enabled_sources(rest, enabled, source);
        let picked = enabled_in_order(rest, enabled);
        if order.contains(source) {
            let i = choose|i: int| 0 <= i < order.len() && order[i] == source;
            if i < order.len() - 1 {
                assert(rest[i] == source);
            }
        }
        if rest.contains(source) {
            let i = choose|i: int| 0 <= i < rest.len() && rest[i] == source;
            assert(order[i] == source);
        }
        if enabled.allows_spec(order.last()) {
            let all = picked.push(order.last());
            assert(all.last() == order.last());
            if picked.contains(source) {
                let i = choose|i: int| 0 <= i < picked.len() && picked[i] == source;
                assert(all[i] == source);
            }
            if all.contains(source) {
                let i = choose|i: int| 0 <= i < all.len() && all[i] == source;
                if i < picked.len() {
                    assert(picked[i] == source);
                } else {
                    assert(order[order.len() - 1] == source);
                }
            }
        }
    }
}

} // verus!

//! The signer: it issues tokens with a lifetime and wraps them as cookies
//! or header values.

use vstd::prelude::*;
use vstd::string::*;
use crate::claims::{issued_spec, Claims};
use crate::errors::{AuthError, AuthResult, CreationError};
use crate::jwt::{copy_header, signing_outcome, Algorithm};
use crate::time::{Clock, TimeOptions};

verus! {

/// A cookie that carries a token.
#[derive(Debug, Clone, PartialEq, Eq)]
pub struct Cookie {
    pub name: String,
    pub value: String,
    /// Whether the cookie may travel over secure connections only.
    pub secure: bool,
}

/// A field without which a builder cannot build.
#[derive(Debug, Clone, Copy, PartialEq, Eq, Structural)]
pub enum RequiredField {
    Algorithm,
    SigningKey,
    VerifyingKey,
    TimeOptions,
}

/// Why a builder could not build.
#[derive(Debug, Clone, Copy, PartialEq, Eq, Structural)]
pub enum BuilderError {
    /// The field was not set, and nothing else supplies it.
    UninitializedField(RequiredField),
}

/// Holds the key and the settings with which tokens are issued.
#[derive(Debug)]
pub struct TokenSigner {
    /// The name of the access tokens: that of their cookie.
    pub access_token_name: String,
    /// Seconds for which an access token holds.
    pub access_token_lifetime: u64,
    /// The name of the refresh tokens: that of their cookie.
    pub refresh_token_name: String,
    /// Seconds for which a refresh token holds.
    pub refresh_token_lifetime: u64,
    /// The header that every token gets; none stands for the empty one.
    pub header: Option<jwt_compact::Header>,
    /// The algorithm that signs.
    pub algorithm: Algorithm,
    /// The key that signs.
    pub signing_key: Vec<u8>,
    /// The clock by which tokens are stamped, and the leeway.
    pub time_options: TimeOptions,
}

/// The signer, as the one that hands out cookies.
pub type CookieSigner = TokenSigner;

/// A signer as a plain value.
pub struct TokenSignerView {
    pub access_token_name: Seq<char>,
    pub access_token_lifetime: u64,
    pub refresh_token_name: Seq<char>,
    pub refresh_token_lifetime: u64,
    pub header: Option<jwt_compact::Header>,
    pub algorithm: Algorithm,
    pub signing_key: Seq<u8>,
    pub time_options: TimeOptions,
}

impl View for TokenSigner {
    type V = TokenSignerView;

    open spec fn view(&self) -> TokenSignerView {
        TokenSignerView {
            access_token_name: self.access_token_name@,
            access_token_lifetime: self.access_token_lifetime,
            refresh_token_name: self.refresh_token_name@,
            refresh_token_lifetime: self.refresh_token_lifetime,
            header: self.header,
            algorithm: self.algorithm,
            signing_key: self.signing_key@,
            time_options: self.time_options,
        }
    }
}

/// Copies a key.
pub fn copy_key(key: &Vec<u8>) -> (r: Vec<u8>)
    ensures
        r@ == key@,
{
    let mut copy: Vec<u8> = Vec::new();
    let mut i: usize = 0;
    while i < key.len()
        invariant
            i <= key.len(),
            copy@ == key@.take(i as int),
        decreases key.len() - i,
    {
        copy.push(key[i]);
        assert(key@.take(i + 1) =~= key@.take(i as int).push(key@[i as int]));
        i += 1;
    }
    assert(key@.take(key.len() as int) =~= key@);
    copy
}

impl Clone for TokenSigner {
    fn clone(&self) -> (r: Self)
        ensures
            r@ == self@,
    {
        TokenSigner {
            access_token_name: self.access_token_name.clone(),
            access_token_lifetime: self.access_token_lifetime,
            refresh_token_name: self.refresh_token_name.clone(),
            refresh_token_lifetime: self.refresh_token_lifetime,
            header: copy_header(&self.header),
            algorithm: self.algorithm,
            signing_key: copy_key(&self.signing_key),
            time_options: self.time_options,
        }
    }
}

/// The settings of a signer, as far as they have been chosen.
#[derive(Debug)]
pub struct TokenSignerBuilder {
    pub access_token_name: Option<String>,
    pub access_token_lifetime: Option<u64>,
    pub refresh_token_name: Option<String>,
    pub refresh_token_lifetime: Option<u64>,
    pub header: Option<jwt_compact::Header>,
    pub algorithm: Option<Algorithm>,
    pub signing_key: Option<Vec<u8>>,
    pub time_options: Option<TimeOptions>,
}

/// The name of access tokens where none was chosen.
pub const DEFAULT_ACCESS_TOKEN_NAME: &'static str = "access_token";

/// The name of refresh tokens where none was chosen.
pub const DEFAULT_REFRESH_TOKEN_NAME: &'static str = "refresh_token";

/// The lifetime of access tokens where none was chosen: a minute.
pub const DEFAULT_ACCESS_TOKEN_LIFETIME: u64 = 60;

/// The lifetime of refresh tokens where none was chosen: half an hour.
pub const DEFAULT_REFRESH_TOKEN_LIFETIME: u64 = 1800;

/// The word and the blank that stand before a bearer token.
pub const BEARER_PREFIX: &'static str = "Bearer ";

/// The text of a name that was chosen, or the default.
pub open spec fn name_or(chosen: Option<String>, default: Seq<char>) -> Seq<char> {
    match chosen {
        Some(name) => name@,
        None => default,
    }
}

/// The number that was chosen, or the default.
pub open spec fn number_or(chosen: Option<u64>, default: u64) -> u64 {
    match chosen {
        Some(number) => number,
        None => default,
    }
}

impl TokenSignerBuilder {
    /// What `build` gives: a signer needs its algorithm and its key, in
    /// this order; every other field has a default, and where no header
    /// was chosen the tokens get the empty one.
    pub open spec fn built_spec(self) -> Result<TokenSignerView, BuilderError> {
        if self.algorithm is None {
            Err(BuilderError::UninitializedField(RequiredField::Algorithm))
        } else if self.signing_key is None {
            Err(BuilderError::UninitializedField(RequiredField::SigningKey))
        } else {
            Ok(
                TokenSignerView {
                    access_token_name: name_or(self.access_token_name, DEFAULT_ACCESS_TOKEN_NAME@),
                    access_token_lifetime: number_or(self.access_token_lifetime, DEFAULT_ACCESS_TOKEN_LIFETIME),
                    refresh_token_name: name_or(self.refresh_token_name, DEFAULT_REFRESH_TOKEN_NAME@),
                    refresh_token_lifetime: number_or(
                        self.refresh_token_lifetime,
                        DEFAULT_REFRESH_TOKEN_LIFETIME,
                    ),
                    header: self.header,
                    algorithm: self.algorithm->0,
                    signing_key: self.signing_key->0@,
                    time_options: match self.time_options {
                        Some(options) => options,
                        None => TimeOptions { leeway: 0, clock: Clock::System },
                    },
                },
            )
        }
    }

    /// Chooses the name of the access tokens.
    pub fn access_token_name(self, name: String) -> (r: Self)
        ensures
            r == (TokenSignerBuilder { access_token_name: Some(name), ..self }),
    {
        let mut builder = self;
        builder.access_token_name = Some(name);
        builder
    }

    /// Chooses the seconds for which an access token holds.
    pub fn access_token_lifetime(self, seconds: u64) -> (r: Self)
        ensures
            r == (TokenSignerBuilder { access_token_lifetime: Some(seconds), ..self }),
    {
        let mut builder = self;
        builder.access_token_lifetime = Some(seconds);
        builder
    }

    /// Chooses the name of the refresh tokens.
    pub fn refresh_token_name(self, name: String) -> (r: Self)
        ensures
            r == (TokenSignerBuilder { refresh_token_name: Some(name), ..self }),
    {
        let mut builder = self;
        builder.refresh_token_name = Some(name);
        builder
    }

    /// Chooses the seconds for which a refresh token holds.
    pub fn refresh_token_lifetime(self, seconds: u64) -> (r: Self)
        ensures
            r == (TokenSignerBuilder { refresh_token_lifetime: Some(seconds), ..self }),
    {
        let mut builder = self;
        builder.refresh_token_lifetime = Some(seconds);
        builder
    }

    /// Chooses the header that every token gets.
    pub fn header(self, header: jwt_compact::Header) -> (r: Self)
        ensures
            r == (TokenSignerBuilder { header: Some(header), ..self }),
    {
        let mut builder = self;
        builder.header = Some(header);
        builder
    }

    /// Chooses the algorithm.
    pub fn algorithm(self, algorithm: Algorithm) -> (r: Self)
        ensures
            r == (TokenSignerBuilder { algorithm: Some(algorithm), ..self }),
    {
        let mut builder = self;
        builder.algorithm = Some(algorithm);
        builder
    }

    /// Chooses the key that signs.
    pub fn signing_key(self, key: Vec<u8>) -> (r: Self)
        ensures
            r == (TokenSignerBuilder { signing_key: Some(key), ..self }),
    {
        let mut builder = self;
        builder.signing_key = Some(key);
        builder
    }

    /// Chooses the clock and the leeway.
    pub fn time_options(self, options: TimeOptions) -> (r: Self)
        ensures
            r == (TokenSignerBuilder { time_options: Some(options), ..self }),
    {
        let mut builder = self;
        builder.time_options = Some(options);
        builder
    }

    /// Builds the signer, or names the first field that is missing.
    pub fn build(self) -> (r: Result<TokenSigner, BuilderError>)
        ensures
            match r {
                Ok(signer) => self.built_spec() == Ok::<TokenSignerView, BuilderError>(signer@),
                Err(e) => self.built_spec() == Err::<TokenSignerView, BuilderError>(e),
            },
    {
        let algorithm = match self.algorithm {
            Some(algorithm) => algorithm,
            None => {
                return Err(BuilderError::UninitializedField(RequiredField::Algorithm));
            },
        };
        let signing_key = match self.signing_key {
            Some(key) => key,
            None => {
                return Err(BuilderError::UninitializedField(RequiredField::SigningKey));
            },
        };
        Ok(
            TokenSigner {
                access_token_name: match self.access_token_name {
                    Some(name) => name,
                    None => DEFAULT_ACCESS_TOKEN_NAME.to_owned(),
                },
                access_token_lifetime: match self.access_token_lifetime {
                    Some(seconds) => seconds,
                    None => DEFAULT_ACCESS_TOKEN_LIFETIME,
                },
                refresh_token_name: match self.refresh_token_name {
                    Some(name) => name,
                    None => DEFAULT_REFRESH_TOKEN_NAME.to_owned(),
                },
                refresh_token_lifetime: match self.refresh_token_lifetime {
                    Some(seconds) => seconds,
                    None => DEFAULT_REFRESH_TOKEN_LIFETIME,
                },
                header: self.header,
                algorithm,
                signing_key,
                time_options: match self.time_options {
                    Some(options) => options,
                    None => TimeOptions { leeway: 0, clock: Clock::System },
                },
            },
        )
    }
}

/// The token that a signer with these settings issues for `custom` at
/// `now`, for `lifetime` seconds.
pub open spec fn issued_token(signer: TokenSignerView, custom: serde_json::Value, lifetime: int, now: int) -> Result<
    Seq<char>,
    CreationError,
> {
    signing_outcome(signer.algorithm, signer.header, issued_spec(custom, now, lifetime), signer.signing_key)
}

/// Whether `r` is what the creation of a token gave: its text, or the
/// failure of the signer.
pub open spec fn is_token_result(token: Result<Seq<char>, CreationError>, r: AuthResult<String>) -> bool {
    match token {
        Ok(text) => r matches Ok(created) && created@ == text,
        Err(e) => r == Err::<String, AuthError>(AuthError::TokenCreation(e)),
    }
}

/// Whether `cookie` is the secure cookie `name` that carries `token`.
pub open spec fn is_token_cookie(cookie: Cookie, name: Seq<char>, token: Seq<char>) -> bool {
    cookie.name@ == name && cookie.value@ == token && cookie.secure
}

/// Whether `r` is what wrapping a created token as the cookie `name` gave.
pub open spec fn is_cookie_result(token: Result<Seq<char>, CreationError>, name: Seq<char>, r: AuthResult<
    Cookie,
>) -> bool {
    match token {
        Ok(text) => r matches Ok(cookie) && is_token_cookie(cookie, name, text),
        Err(e) => r == Err::<Cookie, AuthError>(AuthError::TokenCreation(e)),
    }
}

/// Whether `r` is what prefixing a created token with `prefix` gave.
pub open spec fn is_prefixed_result(token: Result<Seq<char>, CreationError>, prefix: Seq<char>, r: AuthResult<
    String,
>) -> bool {
    match token {
        Ok(text) => r matches Ok(created) && created@ == prefix + text,
        Err(e) => r == Err::<String, AuthError>(AuthError::TokenCreation(e)),
    }
}

impl TokenSigner {
    /// Starts a signer: a builder with nothing chosen.
    pub fn new() -> (r: TokenSignerBuilder)
        ensures
            r == (TokenSignerBuilder {
                access_token_name: None,
                access_token_lifetime: None,
                refresh_token_name: None,
                refresh_token_lifetime: None,
                header: None,
                algorithm: None,
                signing_key: None,
                time_options: None,
            }),
    {
        TokenSignerBuilder {
            access_token_name: None,
            access_token_lifetime: None,
            refresh_token_name: None,
            refresh_token_lifetime: None,
            header: None,
            algorithm: None,
            signing_key: None,
            time_options: None,
        }
    }

    /// Returns the name of the access tokens.
    pub fn access_token_name(&self) -> (r: &str)
        ensures
            r@ == self@.access_token_name,
    {
        self.access_token_name.as_str()
    }

    /// Returns the name of the refresh tokens.
    pub fn refresh_token_name(&self) -> (r: &str)
        ensures
            r@ == self@.refresh_token_name,
    {
        self.refresh_token_name.as_str()
    }

    /// Issues a token for `claims` at the instant `now`: issued at `now`,
    /// expiring `token_lifetime` seconds later, signed with the key. It
    /// fails only where the signing itself fails.
    pub fn create_signed_token_at(&self, claims: &serde_json::Value, token_lifetime: u64, now: i64) -> (r:
        AuthResult<String>)
        ensures
            is_token_result(issued_token(self@, *claims, token_lifetime as int, now as int), r),
    {
        let stamped = Claims::issued(claims.clone(), now, token_lifetime);
        match self.algorithm.sign(&self.header, &stamped, self.signing_key.as_slice()) {
            Ok(token) => Ok(token),
            Err(e) => Err(AuthError::TokenCreation(e)),
        }
    }

    /// Issues a token for `claims` at the instant that the clock gives.
    pub fn create_signed_token(&self, claims: &serde_json::Value, token_lifetime: u64) -> (r: AuthResult<
        String,
    >)
        ensures
            exists|now: int| #[trigger]
                self.time_options.clock.may_read(now) && is_token_result(
                    issued_token(self@, *claims, token_lifetime as int, now),
                    r,
                ),
    {
        let now: i64 = self.time_options.now();
        assert(self.time_options.clock.may_read(now as int));
        self.create_signed_token_at(claims, token_lifetime, now)
    }

    /// Issues a token at `now` and wraps it as the secure cookie
    /// `cookie_name`.
    pub fn create_cookie_at(
        &self,
        claims: &serde_json::Value,
        cookie_name: &str,
        token_lifetime: u64,
        now: i64,
    ) -> (r: AuthResult<Cookie>)
        ensures
            is_cookie_result(
                issued_token(self@, *claims, token_lifetime as int, now as int),
                cookie_name@,
                r,
            ),
    {
        match self.create_signed_token_at(claims, token_lifetime, now) {
            Ok(token) => Ok(Cookie { name: cookie_name.to_owned(), value: token, secure: true }),
            Err(e) => Err(e),
        }
    }

    /// Issues a token and wraps it as the secure cookie `cookie_name`.
    pub fn create_cookie(&self, claims: &serde_json::Value, cookie_name: &str, token_lifetime: u64) -> (r:
        AuthResult<Cookie>)
        ensures
            exists|now: int| #[trigger]
                self.time_options.clock.may_read(now) && is_cookie_result(
                    issued_token(self@, *claims, token_lifetime as int, now),
                    cookie_name@,
                    r,
                ),
    {
        let now: i64 = self.time_options.now();
        assert(self.time_options.clock.may_read(now as int));
        self.create_cookie_at(claims, cookie_name, token_lifetime, now)
    }

    /// Issues an access token at `now`, as its cookie.
    pub fn create_access_cookie_at(&self, claims: &serde_json::Value, now: i64) -> (r: AuthResult<Cookie>)
        ensures
            is_cookie_result(
                issued_token(self@, *claims, self.access_token_lifetime as int, now as int),
                self@.access_token_name,
                r,
            ),
    {
        self.create_cookie_at(claims, self.access_token_name.as_str(), self.access_token_lifetime, now)
    }

    /// Issues a refresh token at `now`, as its cookie.
    pub fn create_refresh_cookie_at(&self, claims: &serde_json::Value, now: i64) -> (r: AuthResult<Cookie>)
        ensures
            is_cookie_result(
                issued_token(self@, *claims, self.refresh_token_lifetime as int, now as int),
                self@.refresh_token_name,
                r,
            ),
    {
        self.create_cookie_at(claims, self.refresh_token_name.as_str(), self.refresh_token_lifetime, now)
    }

    /// Issues an access token, as its cookie.
    pub fn create_access_cookie(&self, claims: &serde_json::Value) -> (r: AuthResult<Cookie>)
        ensures
            exists|now: int| #[trigger]
                self.time_options.clock.may_read(now) && is_cookie_result(
                    issued_token(self@, *claims, self.access_token_lifetime as int, now),
                    self@.access_token_name,
                    r,
                ),
    {
        let now: i64 = self.time_options.now();
        assert(self.time_options.clock.may_read(now as int));
        self.create_access_cookie_at(claims, now)
    }

    /// Issues a refresh token, as its cookie.
    pub fn create_refresh_cookie(&self, claims: &serde_json::Value) -> (r: AuthResult<Cookie>)
        ensures
            exists|now: int| #[trigger]
                self.time_options.clock.may_read(now) && is_cookie_result(
                    issued_token(self@, *claims, self.refresh_token_lifetime as int, now),
                    self@.refresh_token_name,
                    r,
                ),
    {
        let now: i64 = self.time_options.now();
        assert(self.time_options.clock.may_read(now as int));
        self.create_refresh_cookie_at(claims, now)
    }

    /// Issues an access token, as its cookie.
    pub fn create_access_token_cookie(&self, claims: &serde_json::Value) -> (r: AuthResult<Cookie>)
        ensures
            exists|now: int| #[trigger]
                self.time_options.clock.may_read(now) && is_cookie_result(
                    issued_token(self@, *claims, self.access_token_lifetime as int, now),
                    self@.access_token_name,
                    r,
                ),
    {
        self.create_access_cookie(claims)
    }

    /// Issues a refresh token, as its cookie.
    pub fn create_refresh_token_cookie(&self, claims: &serde_json::Value) -> (r: AuthResult<Cookie>)
        ensures
            exists|now: int| #[trigger]
                self.time_options.clock.may_read(now) && is_cookie_result(
                    issued_token(self@, *claims, self.refresh_token_lifetime as int, now),
                    self@.refresh_token_name,
                    r,
                ),
    {
        self.create_refresh_cookie(claims)
    }

    /// Issues a token and wraps it as the secure cookie `token_name`.
    pub fn create_signed_cookie(&self, claims: &serde_json::Value, token_name: &str, token_lifetime: u64) -> (r:
        AuthResult<Cookie>)
        ensures
            exists|now: int| #[trigger]
                self.time_options.clock.may_read(now) && is_cookie_result(
                    issued_token(self@, *claims, token_lifetime as int, now),
                    token_name@,
                    r,
                ),
    {
        self.create_cookie(claims, token_name, token_lifetime)
    }

    /// Issues a token, as the value of a header.
    pub fn create_header_value(&self, claims: &serde_json::Value, token_lifetime: u64) -> (r: AuthResult<
        String,
    >)
        ensures
            exists|now: int| #[trigger]
                self.time_options.clock.may_read(now) && is_token_result(
                    issued_token(self@, *claims, token_lifetime as int, now),
                    r,
                ),
    {
        self.create_signed_token(claims, token_lifetime)
    }

    /// Issues an access token, as the value of a header.
    pub fn create_access_header_value(&self, claims: &serde_json::Value) -> (r: AuthResult<String>)
        ensures
            exists|now: int| #[trigger]
                self.time_options.clock.may_read(now) && is_token_result(
                    issued_token(self@, *claims, self.access_token_lifetime as int, now),
                    r,
                ),
    {
        self.create_header_value(claims, self.access_token_lifetime)
    }

    /// Issues a refresh token, as the value of a header.
    pub fn create_refresh_header_value(&self, claims: &serde_json::Value) -> (r: AuthResult<String>)
        ensures
            exists|now: int| #[trigger]
                self.time_options.clock.may_read(now) && is_token_result(
                    issued_token(self@, *claims, self.refresh_token_lifetime as int, now),
                    r,
                ),
    {
        self.create_header_value(claims, self.refresh_token_lifetime)
    }

    /// Issues an access token, as the value of an `Authorization` header:
    /// the word `Bearer`, a blank and the token.
    pub fn create_bearer_header_value(&self, claims: &serde_json::Value) -> (r: AuthResult<String>)
        ensures
            exists|now: int| #[trigger]
                self.time_options.clock.may_read(now) && is_prefixed_result(
                    issued_token(self@, *claims, self.access_token_lifetime as int, now),
                    BEARER_PREFIX@,
                    r,
                ),
    {
        let now: i64 = self.time_options.now();
        assert(self.time_options.clock.may_read(now as int));
        match self.create_signed_token_at(claims, self.access_token_lifetime, now) {
            Ok(token) => {
                let mut value = BEARER_PREFIX.to_owned();
                value.append(token.as_str());
                Ok(value)
            },
            Err(e) => Err(e),
        }
    }
}

} // verus!

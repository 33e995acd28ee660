//! The failures of the token authority, their HTTP status and their wording.

use vstd::prelude::*;
use vstd::std_specs::cmp::PartialEqSpecImpl;
use vstd::std_specs::convert::FromSpecImpl;
use vstd::string::StringExecFns;
use crate::text::{decimal, decimal_spec};

verus! {

/// HTTP status for a request without a usable token.
pub const UNAUTHORIZED: u16 = 401;

/// HTTP status for a token that cannot even be taken apart.
pub const BAD_REQUEST: u16 = 400;

/// HTTP status for a signer that is missing or cannot sign.
pub const INTERNAL_SERVER_ERROR: u16 = 500;

/// Why a compact token string could not be taken apart.
#[derive(Debug, PartialEq, Eq)]
pub enum ParseError {
    /// The string does not consist of three parts separated by periods.
    InvalidTokenStructure,
    /// A part is not base64url. This is what the parser underneath says;
    /// `parse_untrusted` reports it as `InvalidTokenStructure`.
    InvalidBase64Encoding,
    /// The header is not the JSON object that a token header must be.
    MalformedHeader,
    /// The header announces a content type that is not supported.
    UnsupportedContentType(String),
    /// A failure that has no variant of its own.
    Other,
}

/// Why a parsed token was not accepted.
#[derive(Debug, PartialEq, Eq)]
pub enum ValidationError {
    /// The token names another algorithm than the one configured.
    AlgorithmMismatch { expected: String, actual: String },
    /// The signature has the wrong number of bytes.
    InvalidSignatureLen { expected_len: usize, actual_len: usize },
    /// The signature bytes do not form a signature.
    MalformedSignature,
    /// The signature does not belong to the signed data under the key.
    InvalidSignature,
    /// The claims cannot be read.
    MalformedClaims,
    /// The claims carry no expiration time.
    NoExpiration,
    /// The expiration time, leeway included, has passed.
    Expired,
    /// A failure that has no variant of its own.
    Other,
}

/// Why a token could not be created.
#[derive(Debug, PartialEq, Eq)]
pub enum CreationError {
    /// The header cannot be serialized.
    Header,
    /// The claims cannot be serialized.
    Claims,
    /// A failure that has no variant of its own.
    Other,
}

/// What the re-authorization hook, or the gathering of its arguments,
/// answered when it did not approve: the response status it asks for and
/// its reason.
#[derive(Debug, PartialEq, Eq)]
pub struct Rejection {
    pub status: u16,
    pub reason: String,
}

/// Every way in which a request can fail to authenticate.
#[derive(Debug)]
pub enum AuthError {
    /// No enabled source holds a token of the wanted name.
    NoToken,
    /// Renewal is due, but no signer is configured.
    NoTokenSigner,
    /// The arguments of the re-authorization hook could not be gathered.
    RefreshAuthorizerCall(Rejection),
    /// The re-authorization hook refused the renewal.
    RefreshAuthorizerDenied(Rejection),
    /// The signer could not create a token.
    TokenCreation(CreationError),
    /// The token string is malformed.
    TokenParse(ParseError),
    /// The token's signature, claims or expiration did not pass.
    TokenValidation(ValidationError),
    /// A permission check behind the authority turned the principal away.
    Unauthorized,
}

pub type AuthResult<T> = Result<T, AuthError>;

/// The kinds of failure, without what a failure carries.
#[derive(Debug, Clone, Copy, PartialEq, Eq, Structural)]
pub enum ErrorKind {
    NoToken,
    NoTokenSigner,
    RefreshAuthorizerCall,
    RefreshAuthorizerDenied,
    TokenCreation,
    TokenParse,
    TokenValidation,
    Unauthorized,
}

impl AuthError {
    /// The kind of this failure.
    pub open spec fn kind_spec(self) -> ErrorKind {
        match self {
            AuthError::NoToken => ErrorKind::NoToken,
            AuthError::NoTokenSigner => ErrorKind::NoTokenSigner,
            AuthError::RefreshAuthorizerCall(_) => ErrorKind::RefreshAuthorizerCall,
            AuthError::RefreshAuthorizerDenied(_) => ErrorKind::RefreshAuthorizerDenied,
            AuthError::TokenCreation(_) => ErrorKind::TokenCreation,
            AuthError::TokenParse(_) => ErrorKind::TokenParse,
            AuthError::TokenValidation(_) => ErrorKind::TokenValidation,
            AuthError::Unauthorized => ErrorKind::Unauthorized,
        }
    }

    /// The HTTP status that answers this failure: it follows from the kind
    /// alone, except that a refusal by the hook carries its own.
    pub open spec fn status_spec(self) -> u16 {
        match self {
            AuthError::TokenCreation(_) | AuthError::NoTokenSigner => INTERNAL_SERVER_ERROR,
            AuthError::TokenParse(_) => BAD_REQUEST,
            AuthError::NoToken | AuthError::TokenValidation(_) | AuthError::Unauthorized => UNAUTHORIZED,
            AuthError::RefreshAuthorizerCall(r) | AuthError::RefreshAuthorizerDenied(r) => r.status,
        }
    }

    /// The text shown for this failure. Without `detailed`, what a token
    /// or a key was like stays out of it.
    pub open spec fn message_spec(self, detailed: bool) -> Seq<char> {
        match self {
            AuthError::NoToken => NO_TOKEN_MESSAGE@,
            AuthError::Unauthorized => UNAUTHORIZED_MESSAGE@,
            AuthError::RefreshAuthorizerDenied(r) => r.reason@,
            AuthError::RefreshAuthorizerCall(r) => if detailed {
                r.reason@
            } else {
                INTERNAL_MESSAGE@
            },
            AuthError::NoTokenSigner => if detailed {
                NO_SIGNER_MESSAGE@
            } else {
                INTERNAL_MESSAGE@
            },
            AuthError::TokenCreation(e) => if detailed {
                CREATION_MESSAGE@ + e.description_spec() + CLOSING_QUOTE@
            } else {
                INTERNAL_MESSAGE@
            },
            AuthError::TokenParse(e) => if detailed {
                PARSE_MESSAGE@ + e.description_spec() + CLOSING_QUOTE@
            } else {
                UNPROCESSABLE_MESSAGE@
            },
            AuthError::TokenValidation(e) => if detailed {
                VALIDATION_MESSAGE@ + e.description_spec() + CLOSING_QUOTE@
            } else {
                UNPROCESSABLE_MESSAGE@
            },
        }
    }

    /// Returns the kind of this failure.
    pub fn kind(&self) -> (r: ErrorKind)
        ensures
            r == self.kind_spec(),
    {
        match self {
            AuthError::NoToken => ErrorKind::NoToken,
            AuthError::NoTokenSigner => ErrorKind::NoTokenSigner,
            AuthError::RefreshAuthorizerCall(_) => ErrorKind::RefreshAuthorizerCall,
            AuthError::RefreshAuthorizerDenied(_) => ErrorKind::RefreshAuthorizerDenied,
            AuthError::TokenCreation(_) => ErrorKind::TokenCreation,
            AuthError::TokenParse(_) => ErrorKind::TokenParse,
            AuthError::TokenValidation(_) => ErrorKind::TokenValidation,
            AuthError::Unauthorized => ErrorKind::Unauthorized,
        }
    }

    /// Returns the HTTP status that answers this failure.
    pub fn status_code(&self) -> (r: u16)
        ensures
            r == self.status_spec(),
    {
        match self {
            AuthError::TokenCreation(_) | AuthError::NoTokenSigner => INTERNAL_SERVER_ERROR,
            AuthError::TokenParse(_) => BAD_REQUEST,
            AuthError::NoToken | AuthError::TokenValidation(_) | AuthError::Unauthorized => UNAUTHORIZED,
            AuthError::RefreshAuthorizerCall(r) | AuthError::RefreshAuthorizerDenied(r) => r.status,
        }
    }

    /// Returns the text shown for this failure. With `detailed` the text
    /// names the failure underneath; without it, only the category.
    pub fn message(&self, detailed: bool) -> (r: String)
        ensures
            r@ == self.message_spec(detailed),
    {
        match self {
            AuthError::NoToken => NO_TOKEN_MESSAGE.to_owned(),
            AuthError::Unauthorized => UNAUTHORIZED_MESSAGE.to_owned(),
            AuthError::RefreshAuthorizerDenied(r) => r.reason.clone(),
            AuthError::RefreshAuthorizerCall(r) => if detailed {
                r.reason.clone()
            } else {
                INTERNAL_MESSAGE.to_owned()
            },
            AuthError::NoTokenSigner => if detailed {
                NO_SIGNER_MESSAGE.to_owned()
            } else {
                INTERNAL_MESSAGE.to_owned()
            },
            AuthError::TokenCreation(e) => if detailed {
                quoted(CREATION_MESSAGE, e.description())
            } else {
                INTERNAL_MESSAGE.to_owned()
            },
            AuthError::TokenParse(e) => if detailed {
                quoted(PARSE_MESSAGE, e.description())
            } else {
                UNPROCESSABLE_MESSAGE.to_owned()
            },
            AuthError::TokenValidation(e) => if detailed {
                quoted(VALIDATION_MESSAGE, e.description())
            } else {
                UNPROCESSABLE_MESSAGE.to_owned()
            },
        }
    }
}

pub const NO_TOKEN_MESSAGE: &'static str =
    "An error occurred, no cookie containing a jwt was found in the request. Please first authenticate with this application.";

pub const UNAUTHORIZED_MESSAGE: &'static str =
    "An error occurred, the authenticated principal may not access this resource.";

pub const INTERNAL_MESSAGE: &'static str = "An internal error occurred. Please try again later.";

pub const UNPROCESSABLE_MESSAGE: &'static str =
    "An error occurred, the provided jwt could not be processed.";

pub const NO_SIGNER_MESSAGE: &'static str =
    "An error occurred because no TokenSigner was configured on the Authority struct.";

pub const CREATION_MESSAGE: &'static str = "An error occurred creating the jwt.\n\t Error: \"";

pub const PARSE_MESSAGE: &'static str = "An error occurred parsing the jwt.\n\t Error: \"";

pub const VALIDATION_MESSAGE: &'static str = "An error occurred validating the jwt.\n\t Error: \"";

pub const CLOSING_QUOTE: &'static str = "\"";

/// Puts `detail` behind `opening` and closes the quotation.
fn quoted(opening: &str, detail: String) -> (r: String)
    ensures
        r@ == opening@ + detail@ + CLOSING_QUOTE@,
{
    let mut text = opening.to_owned();
    text.append(detail.as_str());
    text.append(CLOSING_QUOTE);
    text
}

impl ParseError {
    /// What went wrong, in a few words.
    pub open spec fn description_spec(self) -> Seq<char> {
        match self {
            ParseError::InvalidTokenStructure => "invalid token structure"@,
            ParseError::InvalidBase64Encoding => "invalid base64 decoding"@,
            ParseError::MalformedHeader => "malformed token header"@,
            ParseError::UnsupportedContentType(ty) => "unsupported content type: "@ + ty@,
            ParseError::Other => "token cannot be parsed"@,
        }
    }

    /// Returns what went wrong, in a few words.
    pub fn description(&self) -> (r: String)
        ensures
            r@ == self.description_spec(),
    {
        match self {
            ParseError::InvalidTokenStructure => "invalid token structure".to_owned(),
            ParseError::InvalidBase64Encoding => "invalid base64 decoding".to_owned(),
            ParseError::MalformedHeader => "malformed token header".to_owned(),
            ParseError::UnsupportedContentType(ty) => {
                let mut text = "unsupported content type: ".to_owned();
                text.append(ty.as_str());
                text
            },
            ParseError::Other => "token cannot be parsed".to_owned(),
        }
    }
}

impl ValidationError {
    /// What went wrong, in a few words.
    pub open spec fn description_spec(self) -> Seq<char> {
        match self {
            ValidationError::AlgorithmMismatch { expected, actual } => "token algorithm ("@ + actual@
                + ") differs from expected ("@ + expected@ + ")"@,
            ValidationError::InvalidSignatureLen { expected_len, actual_len } =>
                "invalid signature length: expected "@ + decimal_spec(expected_len as nat) + " bytes, got "@
                    + decimal_spec(actual_len as nat) + " bytes"@,
            ValidationError::MalformedSignature => "malformed token signature"@,
            ValidationError::InvalidSignature => "signature has failed verification"@,
            ValidationError::MalformedClaims => "cannot deserialize claims"@,
            ValidationError::NoExpiration => "claim `exp` requested during validation is not present in the token"@,
            ValidationError::Expired => "token has expired"@,
            ValidationError::Other => "token cannot be validated"@,
        }
    }

    /// Returns what went wrong, in a few words.
    pub fn description(&self) -> (r: String)
        ensures
            r@ == self.description_spec(),
    {
        match self {
            ValidationError::AlgorithmMismatch { expected, actual } => {
                let mut text = "token algorithm (".to_owned();
                text.append(actual.as_str());
                text.append(") differs from expected (");
                text.append(expected.as_str());
                text.append(")");
                text
            },
            ValidationError::InvalidSignatureLen { expected_len, actual_len } => {
                let mut text = "invalid signature length: expected ".to_owned();
                text.append(decimal(*expected_len).as_str());
                text.append(" bytes, got ");
                text.append(decimal(*actual_len).as_str());
                text.append(" bytes");
                text
            },
            ValidationError::MalformedSignature => "malformed token signature".to_owned(),
            ValidationError::InvalidSignature => "signature has failed verification".to_owned(),
            ValidationError::MalformedClaims => "cannot deserialize claims".to_owned(),
            ValidationError::NoExpiration => "claim `exp` requested during validation is not present in the token".to_owned(),
            ValidationError::Expired => "token has expired".to_owned(),
            ValidationError::Other => "token cannot be validated".to_owned(),
        }
    }
}

impl CreationError {
    /// What went wrong, in a few words.
    pub open spec fn description_spec(self) -> Seq<char> {
        match self {
            CreationError::Header => "cannot serialize header"@,
            CreationError::Claims => "cannot serialize claims"@,
            CreationError::Other => "token cannot be created"@,
        }
    }

    /// Returns what went wrong, in a few words.
    pub fn description(&self) -> (r: String)
        ensures
            r@ == self.description_spec(),
    {
        match self {
            CreationError::Header => "cannot serialize header".to_owned(),
            CreationError::Claims => "cannot serialize claims".to_owned(),
            CreationError::Other => "token cannot be created".to_owned(),
        }
    }
}

/// Two failures are equal when they are of the same kind: what they carry
/// is not compared.
impl PartialEq for AuthError {
    fn eq(&self, other: &Self) -> (r: bool) {
        self.kind() == other.kind()
    }
}

impl PartialEqSpecImpl for AuthError {
    open spec fn obeys_eq_spec() -> bool {
        true
    }

    open spec fn eq_spec(&self, other: &Self) -> bool {
        self.kind_spec() == other.kind_spec()
    }
}

impl From<CreationError> for AuthError {
    fn from(e: CreationError) -> (r: Self) {
        AuthError::TokenCreation(e)
    }
}

impl FromSpecImpl<CreationError> for AuthError {
    open spec fn obeys_from_spec() -> bool {
        true
    }

    open spec fn from_spec(e: CreationError) -> Self {
        AuthError::TokenCreation(e)
    }
}

impl From<ParseError> for AuthError {
    fn from(e: ParseError) -> (r: Self) {
        AuthError::TokenParse(e)
    }
}

impl FromSpecImpl<ParseError> for AuthError {
    open spec fn obeys_from_spec() -> bool {
        true
    }

    open spec fn from_spec(e: ParseError) -> Self {
        AuthError::TokenParse(e)
    }
}

impl From<ValidationError> for AuthError {
    fn from(e: ValidationError) -> (r: Self) {
        AuthError::TokenValidation(e)
    }
}

impl FromSpecImpl<ValidationError> for AuthError {
    open spec fn obeys_from_spec() -> bool {
        true
    }

    open spec fn from_spec(e: ValidationError) -> Self {
        AuthError::TokenValidation(e)
    }
}

/// A failure's status is one of the three fixed ones, unless the hook set it.
pub proof fn lemma_status_follows_kind(e: AuthError)
    ensures
        e.kind_spec() == ErrorKind::TokenParse ==> e.status_spec() == BAD_REQUEST,
        e.kind_spec() == ErrorKind::NoToken || e.kind_spec() == ErrorKind::TokenValidation
            || e.kind_spec() == ErrorKind::Unauthorized ==> e.status_spec() == UNAUTHORIZED,
        e.kind_spec() == ErrorKind::NoTokenSigner || e.kind_spec() == ErrorKind::TokenCreation
            ==> e.status_spec() == INTERNAL_SERVER_ERROR,
        e matches AuthError::RefreshAuthorizerDenied(r) ==> e.status_spec() == r.status,
        e matches AuthError::RefreshAuthorizerCall(r) ==> e.status_spec() == r.status,
{
}

/// The short text of a failure of a token, of the signer or of the hook's
/// call says nothing of the failure underneath: two failures of one kind
/// read the same.
pub proof fn lemma_short_message_hides_detail(a: AuthError, b: AuthError)
    requires
        a.kind_spec() == b.kind_spec(),
        a.kind_spec() != ErrorKind::RefreshAuthorizerDenied,
    ensures
        a.message_spec(false) == b.message_spec(false),
{
}

} // verus!

//! Validation errors, their display text, and the JWKS fetch failures.

use crate::backend::{duration_debug, duration_debug_text, DecodeFailure};
use crate::time::{TimeSpan, NANOS_PER_SEC};
use vstd::prelude::*;

verus! {

/// Categorized cause of a JWKS fetch failure.
///
/// Lets consumers build log/alert filters (e.g. distinguish an
/// auth-server outage from a key-rotation/config problem) without
/// string-matching on the display text of [`JwtValidationError`].
#[derive(Debug, Clone, Copy, PartialEq, Eq, Structural)]
#[non_exhaustive]
pub enum JwksFetchErrorKind {
    /// Overall fetch (including retries) exceeded its timeout ceiling.
    Timeout,
    /// The HTTP request itself failed (DNS, TLS, connection reset, etc).
    Transport,
    /// The JWKS endpoint responded with a non-2xx HTTP status.
    HttpStatus(u16),
    /// The response body did not parse as JWKS JSON.
    InvalidJson,
    /// The JWKS parsed but contained no usable signing keys.
    NoSigningKeys,
}

/// Errors from JWT validation.
#[derive(Debug)]
#[non_exhaustive]
pub enum JwtValidationError {
    InvalidToken(String),
    TokenExpired,
    InvalidAudience,
    InvalidIssuer,
    UnsupportedAlgorithm(String),
    JwksFetchError { kind: JwksFetchErrorKind, message: String },
    KeyNotFound(String),
    DecodingError(String),
}

/// A validation error with its texts taken as sequences of characters.
pub enum ErrorView {
    InvalidToken(Seq<char>),
    TokenExpired,
    InvalidAudience,
    InvalidIssuer,
    UnsupportedAlgorithm(Seq<char>),
    JwksFetchError { kind: JwksFetchErrorKind, message: Seq<char> },
    KeyNotFound(Seq<char>),
    DecodingError(Seq<char>),
}

impl View for JwtValidationError {
    type V = ErrorView;

    open spec fn view(&self) -> ErrorView {
        match self {
            JwtValidationError::InvalidToken(s) => ErrorView::InvalidToken(s@),
            JwtValidationError::TokenExpired => ErrorView::TokenExpired,
            JwtValidationError::InvalidAudience => ErrorView::InvalidAudience,
            JwtValidationError::InvalidIssuer => ErrorView::InvalidIssuer,
            JwtValidationError::UnsupportedAlgorithm(s) => ErrorView::UnsupportedAlgorithm(s@),
            JwtValidationError::JwksFetchError { kind, message } => ErrorView::JwksFetchError {
                kind: *kind,
                message: message@,
            },
            JwtValidationError::KeyNotFound(s) => ErrorView::KeyNotFound(s@),
            JwtValidationError::DecodingError(s) => ErrorView::DecodingError(s@),
        }
    }
}

/// The display text of an error.
pub open spec fn display_text(e: ErrorView) -> Seq<char> {
    match e {
        ErrorView::InvalidToken(s) => "Invalid token: "@ + s,
        ErrorView::TokenExpired => "Token expired"@,
        ErrorView::InvalidAudience => "Invalid audience"@,
        ErrorView::InvalidIssuer => "Invalid issuer"@,
        ErrorView::UnsupportedAlgorithm(s) => "Unsupported algorithm: "@ + s,
        ErrorView::JwksFetchError { kind, message } => "JWKS fetch error: "@ + message,
        ErrorView::KeyNotFound(s) => "Key not found: "@ + s,
        ErrorView::DecodingError(s) => "Decoding error: "@ + s,
    }
}

/// The character of a decimal digit.
pub open spec fn digit_char(d: nat) -> char {
    if d == 0 {
        '0'
    } else if d == 1 {
        '1'
    } else if d == 2 {
        '2'
    } else if d == 3 {
        '3'
    } else if d == 4 {
        '4'
    } else if d == 5 {
        '5'
    } else if d == 6 {
        '6'
    } else if d == 7 {
        '7'
    } else if d == 8 {
        '8'
    } else {
        '9'
    }
}

/// The decimal text of a number, without leading zeros.
pub open spec fn decimal_text(n: nat) -> Seq<char>
    decreases n,
{
    if n < 10 {
        seq![digit_char(n)]
    } else {
        decimal_text(n / 10).push(digit_char(n % 10))
    }
}

/// `prefix` followed by `rest`.
pub fn prefixed(prefix: &str, rest: &str) -> (s: String)
    ensures
        s@ == prefix@ + rest@,
{
    let mut s = prefix.to_owned();
    s.append(rest);
    s
}

fn digit_str(d: u16) -> (s: &'static str)
    requires
        d < 10,
    ensures
        s@ == seq![digit_char(d as nat)],
{
    if d == 0 {
        proof {
            reveal_strlit("0");
            assert("0"@ =~= seq!['0']);
        }
        "0"
    } else if d == 1 {
        proof {
            reveal_strlit("1");
            assert("1"@ =~= seq!['1']);
        }
        "1"
    } else if d == 2 {
        proof {
            reveal_strlit("2");
            assert("2"@ =~= seq!['2']);
        }
        "2"
    } else if d == 3 {
        proof {
            reveal_strlit("3");
            assert("3"@ =~= seq!['3']);
        }
        "3"
    } else if d == 4 {
        proof {
            reveal_strlit("4");
            assert("4"@ =~= seq!['4']);
        }
        "4"
    } else if d == 5 {
        proof {
            reveal_strlit("5");
            assert("5"@ =~= seq!['5']);
        }
        "5"
    } else if d == 6 {
        proof {
            reveal_strlit("6");
            assert("6"@ =~= seq!['6']);
        }
        "6"
    } else if d == 7 {
        proof {
            reveal_strlit("7");
            assert("7"@ =~= seq!['7']);
        }
        "7"
    } else if d == 8 {
        proof {
            reveal_strlit("8");
            assert("8"@ =~= seq!['8']);
        }
        "8"
    } else {
        proof {
            reveal_strlit("9");
            assert("9"@ =~= seq!['9']);
        }
        "9"
    }
}

/// The decimal text of a status code, as `{}` prints a `u16`.
pub fn decimal(n: u16) -> (s: String)
    ensures
        s@ == decimal_text(n as nat),
    decreases n,
{
    if n < 10 {
        digit_str(n).to_owned()
    } else {
        let mut s = decimal(n / 10);
        s.append(digit_str(n % 10));
        s
    }
}

impl JwtValidationError {
    /// The display text of the error.
    pub fn to_string(&self) -> (s: String)
        ensures
            s@ == display_text(self@),
    {
        match self {
            JwtValidationError::InvalidToken(m) => prefixed("Invalid token: ", m.as_str()),
            JwtValidationError::TokenExpired => "Token expired".to_owned(),
            JwtValidationError::InvalidAudience => "Invalid audience".to_owned(),
            JwtValidationError::InvalidIssuer => "Invalid issuer".to_owned(),
            JwtValidationError::UnsupportedAlgorithm(m) => prefixed(
                "Unsupported algorithm: ",
                m.as_str(),
            ),
            JwtValidationError::JwksFetchError { kind, message } => prefixed(
                "JWKS fetch error: ",
                message.as_str(),
            ),
            JwtValidationError::KeyNotFound(m) => prefixed("Key not found: ", m.as_str()),
            JwtValidationError::DecodingError(m) => prefixed("Decoding error: ", m.as_str()),
        }
    }

    /// The failure of the HTTP request itself, with the transport's own message.
    pub fn transport(message: String) -> (e: JwtValidationError)
        ensures
            e@ == (ErrorView::JwksFetchError { kind: JwksFetchErrorKind::Transport, message: message@ }),
    {
        JwtValidationError::JwksFetchError { kind: JwksFetchErrorKind::Transport, message }
    }

    /// A response body that did not parse as a JWKS document.
    pub fn invalid_json(detail: &str) -> (e: JwtValidationError)
        ensures
            e@ == (ErrorView::JwksFetchError {
                kind: JwksFetchErrorKind::InvalidJson,
                message: "Invalid JWKS JSON: "@ + detail@,
            }),
    {
        JwtValidationError::JwksFetchError {
            kind: JwksFetchErrorKind::InvalidJson,
            message: prefixed("Invalid JWKS JSON: ", detail),
        }
    }

    /// A JWKS document without a single usable signing key.
    pub fn no_signing_keys() -> (e: JwtValidationError)
        ensures
            e@ == (ErrorView::JwksFetchError {
                kind: JwksFetchErrorKind::NoSigningKeys,
                message: "JWKS response contained no usable signing keys"@,
            }),
    {
        JwtValidationError::JwksFetchError {
            kind: JwksFetchErrorKind::NoSigningKeys,
            message: "JWKS response contained no usable signing keys".to_owned(),
        }
    }
}

/// The error that a refusal of `jsonwebtoken::decode` stands for.
pub open spec fn decode_failure_error(f: DecodeFailure) -> ErrorView {
    match f {
        DecodeFailure::Expired => ErrorView::TokenExpired,
        DecodeFailure::WrongAudience => ErrorView::InvalidAudience,
        DecodeFailure::WrongIssuer => ErrorView::InvalidIssuer,
        DecodeFailure::Other(text) => ErrorView::InvalidToken(text@),
    }
}

impl JwtValidationError {
    /// The error that a refusal of `jsonwebtoken::decode` stands for: an
    /// expired token, a wrong audience or issuer, or an invalid token with
    /// the refusal's text.
    pub fn from_decode_failure(f: DecodeFailure) -> (e: JwtValidationError)
        ensures
            e@ == decode_failure_error(f),
    {
        match f {
            DecodeFailure::Expired => JwtValidationError::TokenExpired,
            DecodeFailure::WrongAudience => JwtValidationError::InvalidAudience,
            DecodeFailure::WrongIssuer => JwtValidationError::InvalidIssuer,
            DecodeFailure::Other(text) => JwtValidationError::InvalidToken(text),
        }
    }

    /// The fetch that ran past its overall timeout `ceiling`.
    pub fn fetch_timeout(ceiling: TimeSpan) -> (e: JwtValidationError)
        ensures
            e@ == (ErrorView::JwksFetchError {
                kind: JwksFetchErrorKind::Timeout,
                message: "JWKS fetch timed out after "@ + duration_debug_text(
                    (ceiling@ / (NANOS_PER_SEC as nat)) as u64,
                    (ceiling@ % (NANOS_PER_SEC as nat)) as u32,
                ),
            }),
    {
        let text = duration_debug(ceiling.as_secs(), ceiling.subsec_nanos());
        JwtValidationError::JwksFetchError {
            kind: JwksFetchErrorKind::Timeout,
            message: prefixed("JWKS fetch timed out after ", text.as_str()),
        }
    }
}

/// Whether an HTTP status counts as success (2xx).
pub open spec fn is_success_status(status: u16) -> bool {
    200 <= status <= 299
}

/// Accepts a 2xx status of the JWKS endpoint; any other is a fetch error
/// that carries the status.
pub fn check_http_status(status: u16) -> (r: Result<(), JwtValidationError>)
    ensures
        r is Ok <==> is_success_status(status),
        r matches Err(e) ==> e@ == (ErrorView::JwksFetchError {
            kind: JwksFetchErrorKind::HttpStatus(status),
            message: "JWKS endpoint returned HTTP "@ + decimal_text(status as nat),
        }),
{
    if 200 <= status && status <= 299 {
        Ok(())
    } else {
        let code = decimal(status);
        Err(
            JwtValidationError::JwksFetchError {
                kind: JwksFetchErrorKind::HttpStatus(status),
                message: prefixed("JWKS endpoint returned HTTP ", code.as_str()),
            },
        )
    }
}

} // verus!

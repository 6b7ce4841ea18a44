//! The calls into `jsonwebtoken` (and the one into std's `Duration`
//! formatting), each behind a contract that the rest of the crate relies on.

use crate::algorithm::algorithm_named;
use jsonwebtoken::errors::ErrorKind;
use jsonwebtoken::DecodingKey;
use std::collections::HashSet;
use vstd::prelude::*;

verus! {

#[verifier::external_type_specification]
#[verifier::external_body]
pub struct ExDecodingKey(jsonwebtoken::DecodingKey);

#[verifier::external_type_specification]
#[verifier::external_body]
pub struct ExJsonValue(serde_json::Value);

/// An optional text taken as an optional sequence of characters.
pub open spec fn opt_text(o: Option<String>) -> Option<Seq<char>> {
    match o {
        Some(s) => Some(s@),
        None => None,
    }
}

/// What `jsonwebtoken::decode_header` makes of a token: the header's `alg`
/// spelled as its variant name and the header's `kid`, or the display text
/// of the error.
pub uninterp spec fn jwt_header_of(token: Seq<char>) -> Result<(Seq<char>, Option<Seq<char>>), Seq<char>>;

/// The key that `DecodingKey::from_rsa_components(n, e)` builds, if it
/// accepts the two base64url components.
pub uninterp spec fn rsa_components_key(n: Seq<char>, e: Seq<char>) -> Option<DecodingKey>;

/// The key that `DecodingKey::from_ec_components(x, y)` builds, if it
/// accepts the two base64url coordinates.
pub uninterp spec fn ec_components_key(x: Seq<char>, y: Seq<char>) -> Option<DecodingKey>;

/// A numeric registered claim (`exp`) as `jsonwebtoken` reads it for
/// validation.
pub enum NumericClaim {
    /// Present, with this value.
    Parsed(u64),
    /// Present, but not a number that fits a `u64`.
    Malformed,
    /// Absent, or `null`.
    Absent,
}

/// A registered claim that names principals (`iss`, `aud`) as `jsonwebtoken`
/// reads it for validation: one string, or an array of strings, taken as
/// the set of its strings.
pub enum NamesClaim {
    /// Present, with this set of names.
    Parsed(Set<Seq<char>>),
    /// Present, but neither a string nor an array of strings.
    Malformed,
    /// Absent, or `null`.
    Absent,
}

/// The registered claims of a token's payload that validation reads.
pub struct RegisteredClaims {
    pub exp: NumericClaim,
    pub iss: NamesClaim,
    pub aud: NamesClaim,
}

/// What `jsonwebtoken::decode::<serde_json::Value>` finds in a token for a
/// key and an algorithm, apart from the clock.
pub struct DecodeFacts {
    /// The token has the form `<header>.<payload>.<signature>`, and the
    /// verifier that `jsonwebtoken` builds for the algorithm from the key
    /// accepts the base64url-decoded signature over `<header>.<payload>`.
    pub signature_ok: bool,
    /// The payload, read as JSON.
    pub claims: serde_json::Value,
    /// The registered claims of the payload, where the payload decodes from
    /// base64url and reads as JSON and as the claims validation looks at.
    pub registered: Option<RegisteredClaims>,
}

/// What `jsonwebtoken::decode` finds in `token` for `key` and the algorithm
/// named `alg`: signature, payload and registered claims.
pub uninterp spec fn decode_facts(token: Seq<char>, key: DecodingKey, alg: Seq<char>) -> DecodeFacts;

/// Whether the token's header names the algorithm `alg`.
pub open spec fn header_names(token: Seq<char>, alg: Seq<char>) -> bool {
    jwt_header_of(token) matches Ok((name, _)) && name == alg
}

/// Whether a names claim, where present, holds `name`.
pub open spec fn names_admit(c: NamesClaim, name: Seq<char>) -> bool {
    c matches NamesClaim::Parsed(s) ==> s.contains(name)
}

/// The claim checks that validation applies apart from the clock: `exp`
/// present, the issuer (where one is set) among the `iss` names where those
/// are present, and, where `aud` is checked, the audience among the `aud`
/// names where present, or no `aud` claim at all where no audience is set.
pub open spec fn claims_pass(
    rc: RegisteredClaims,
    issuer: Option<Seq<char>>,
    audience: Option<Seq<char>>,
    validate_aud: bool,
) -> bool {
    &&& rc.exp is Parsed
    &&& issuer matches Some(i) ==> names_admit(rc.iss, i)
    &&& validate_aud ==> match audience {
        Some(a) => names_admit(rc.aud, a),
        None => !(rc.aud is Parsed),
    }
}

/// The text that `{:?}` prints for `Duration::new(secs, subsec_nanos)`.
pub uninterp spec fn duration_debug_text(secs: u64, subsec_nanos: u32) -> Seq<char>;

/// A header read, with its texts taken as sequences of characters.
pub open spec fn header_view(r: Result<(String, Option<String>), String>) -> Result<
    (Seq<char>, Option<Seq<char>>),
    Seq<char>,
> {
    match r {
        Ok((alg, kid)) => Ok((alg@, opt_text(kid))),
        Err(e) => Err(e@),
    }
}

/// Calls `jsonwebtoken::decode_header` on the token. Claimed: the result
/// is the header's algorithm (by its `Debug` name) and `kid`, or the
/// error's display text, and it depends on the token alone.
#[verifier::external_body]
pub(crate) fn read_header(token: &str) -> (r: Result<(String, Option<String>), String>)
    ensures
        header_view(r) == jwt_header_of(token@),
{
    match jsonwebtoken::decode_header(token) {
        Ok(header) => Ok((format!("{:?}", header.alg), header.kid)),
        Err(e) => Err(e.to_string()),
    }
}

/// Calls `DecodingKey::from_rsa_components`. Claimed: the key (or its
/// absence, where the call fails) depends on the two components alone.
#[verifier::external_body]
pub(crate) fn rsa_key(n: &str, e: &str) -> (k: Option<DecodingKey>)
    ensures
        k == rsa_components_key(n@, e@),
{
    DecodingKey::from_rsa_components(n, e).ok()
}

/// Calls `DecodingKey::from_ec_components`. Claimed: the key (or its
/// absence, where the call fails) depends on the two coordinates alone.
#[verifier::external_body]
pub(crate) fn ec_key(x: &str, y: &str) -> (k: Option<DecodingKey>)
    ensures
        k == ec_components_key(x@, y@),
{
    DecodingKey::from_ec_components(x, y).ok()
}

/// Calls the derived `Clone` of `DecodingKey`. Claimed: the copy equals
/// the key it was made from.
#[verifier::external_body]
pub(crate) fn copy_key(k: &DecodingKey) -> (c: DecodingKey)
    ensures
        c == *k,
{
    k.clone()
}

/// Formats a `Duration` with `{:?}`. Claimed: the text depends on the
/// seconds and nanoseconds alone.
#[verifier::external_body]
pub(crate) fn duration_debug(secs: u64, subsec_nanos: u32) -> (s: String)
    requires
        subsec_nanos < 1_000_000_000,
    ensures
        s@ == duration_debug_text(secs, subsec_nanos),
{
    format!("{:?}", std::time::Duration::new(secs, subsec_nanos))
}

/// The claim checks handed to `jsonwebtoken::decode`.
pub struct ClaimChecks {
    /// The name of the one algorithm the token may be signed with.
    pub algorithm: String,
    /// The one accepted issuer, when the issuer is checked.
    pub issuer: Option<String>,
    /// The one accepted audience, when the audience is checked.
    pub audience: Option<String>,
    /// Whether `exp` is checked.
    pub validate_exp: bool,
    /// Whether `aud` is checked.
    pub validate_aud: bool,
}

/// Why `jsonwebtoken::decode` refused a token.
pub enum DecodeFailure {
    /// `ErrorKind::ExpiredSignature`.
    Expired,
    /// `ErrorKind::InvalidAudience`.
    WrongAudience,
    /// `ErrorKind::InvalidIssuer`.
    WrongIssuer,
    /// Any other kind, with the error's display text.
    Other(String),
}

/// Whether `token` passes the checks of `decode` apart from the clock: its
/// header names the checks' algorithm, its signature verifies with `key`,
/// and its registered claims pass the checks.
pub open spec fn decode_passes(token: Seq<char>, key: DecodingKey, checks: ClaimChecks) -> bool {
    let f = decode_facts(token, key, checks.algorithm@);
    &&& f.signature_ok
    &&& header_names(token, checks.algorithm@)
    &&& match f.registered {
        Some(rc) => claims_pass(
            rc,
            opt_text(checks.issuer),
            opt_text(checks.audience),
            checks.validate_aud,
        ),
        None => false,
    }
}

/// What a refusal by `decode` says: an expiry, issuer or audience refusal
/// comes after header and signature, with the claim that fails it; any
/// other refusal comes only for a token that does not pass the checks
/// apart from the clock.
pub open spec fn decode_refusal_fits(
    token: Seq<char>,
    key: DecodingKey,
    checks: ClaimChecks,
    failure: DecodeFailure,
) -> bool {
    let f = decode_facts(token, key, checks.algorithm@);
    let verified = f.signature_ok && header_names(token, checks.algorithm@);
    match failure {
        DecodeFailure::Expired => verified && checks.validate_exp && match f.registered {
            Some(rc) => rc.exp is Parsed,
            None => false,
        },
        DecodeFailure::WrongIssuer => verified && match (f.registered, opt_text(checks.issuer)) {
            (Some(rc), Some(i)) => !names_admit(rc.iss, i),
            _ => false,
        },
        DecodeFailure::WrongAudience => verified && checks.validate_aud && match f.registered {
            Some(rc) => rc.aud is Parsed && match opt_text(checks.audience) {
                Some(a) => !names_admit(rc.aud, a),
                None => true,
            },
            None => false,
        },
        DecodeFailure::Other(_) => !decode_passes(token, key, checks),
    }
}

/// Calls `jsonwebtoken::decode`, with the claims read as a JSON value,
/// after building its `Validation`: `Validation::new` for the algorithm
/// that `Algorithm::from_str` finds by the checks' name, the two flags as
/// they are, issuer and audience each as a one-element set (what
/// `set_issuer(&[..])` and `set_audience(&[..])` store); a refusal is
/// sorted by its kind. The expiry check is always on: a token is only
/// decoded with `exp` compared against the clock.
///
/// Claimed, with `F` the decode facts of token, key and algorithm: an
/// accepted token has a header naming the algorithm, a valid signature and
/// registered claims that pass the checks, and its claims are `F.claims`;
/// an expiry refusal, an issuer refusal and an audience refusal each come
/// after the signature, with the claim that fails; any other refusal comes
/// only where some of those conditions fail. Not claimed: which tokens are
/// accepted, since the expiry check compares `exp` with the system clock.
#[verifier::external_body]
pub(crate) fn decode_token(
    token: &str,
    key: &DecodingKey,
    checks: &ClaimChecks,
) -> (r: Result<serde_json::Value, DecodeFailure>)
    requires
        algorithm_named(checks.algorithm@) is Some,
        checks.validate_exp,
    ensures
        r matches Ok(claims) ==> decode_passes(token@, *key, *checks) && claims == decode_facts(
            token@,
            *key,
            checks.algorithm@,
        ).claims,
        r matches Err(failure) ==> decode_refusal_fits(token@, *key, *checks, failure),
{
    let mut v = jsonwebtoken::Validation::new(checks.algorithm.parse().unwrap());
    v.validate_exp = checks.validate_exp;
    v.validate_aud = checks.validate_aud;
    v.iss = checks.issuer.clone().map(|i| HashSet::from([i]));
    v.aud = checks.audience.clone().map(|a| HashSet::from([a]));
    match jsonwebtoken::decode::<serde_json::Value>(token, key, &v) {
        Ok(data) => Ok(data.claims),
        Err(e) => Err(match e.kind() {
            ErrorKind::ExpiredSignature => DecodeFailure::Expired,
            ErrorKind::InvalidAudience => DecodeFailure::WrongAudience,
            ErrorKind::InvalidIssuer => DecodeFailure::WrongIssuer,
            _ => DecodeFailure::Other(e.to_string()),
        }),
    }
}

} // verus!

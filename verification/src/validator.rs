//! The validator: its configuration, and the decisions of a validation.
//!
//! A validation runs in at most two steps. [`JwtValidator::validate`]
//! reads the token header, checks the algorithm and looks the key up in
//! the cache; where the key is missing and a fetch may start, it asks for
//! one. [`JwtValidator::resume_validation`] takes in the fetch outcome and
//! finishes. Only the fetch itself, with its waits, happens outside.

use crate::algorithm::{algorithm_name, algorithm_named, Algorithm};
use crate::backend::{
    claims_pass, decode_facts, decode_token, header_names, jwt_header_of, names_admit, opt_text,
    read_header, ClaimChecks,
};
use crate::cache::{
    cached_key, fetched_keys, fresh_key, refresh_rate_limited, refreshed, serves_stale, CacheModel,
    JwksCache,
};
use crate::error::{prefixed, ErrorView, JwtValidationError};
use crate::jwks::KeySet;
use crate::retry::{ceiling_of, RetryConfig};
use crate::time::{opt_span, TimeSpan, MAX_SPAN_NANOS};
use jsonwebtoken::DecodingKey;
use vstd::prelude::*;

verus! {

/// What a validator holds, taken as mathematical values.
pub struct ValidatorModel {
    pub jwks_uri: Seq<char>,
    pub allowed_algorithms: Seq<Algorithm>,
    pub issuer: Option<Seq<char>>,
    pub audience: Option<Seq<char>>,
    pub refresh_interval: nat,
    pub stale_window: nat,
    pub retry: Option<RetryConfig>,
    pub max_age: Option<nat>,
    pub cache: CacheModel,
}

/// JWT validator with JWKS caching and kid-miss refresh.
///
/// Supports RS256 and ES256 by default. Rate-limits JWKS fetches.
pub struct JwtValidator {
    jwks_uri: String,
    allowed_algorithms: Vec<Algorithm>,
    issuer: Option<String>,
    audience: Option<String>,
    refresh_interval: TimeSpan,
    stale_window: TimeSpan,
    retry: Option<RetryConfig>,
    max_age: Option<TimeSpan>,
    cache: JwksCache,
}

impl View for JwtValidator {
    type V = ValidatorModel;

    closed spec fn view(&self) -> ValidatorModel {
        ValidatorModel {
            jwks_uri: self.jwks_uri@,
            allowed_algorithms: self.allowed_algorithms@,
            issuer: opt_text(self.issuer),
            audience: opt_text(self.audience),
            refresh_interval: self.refresh_interval@,
            stale_window: self.stale_window@,
            retry: self.retry,
            max_age: opt_span(self.max_age),
            cache: self.cache@,
        }
    }
}

/// The `kid` a token is looked up by: its header's, or `"default"`.
pub open spec fn kid_or_default(kid: Option<Seq<char>>) -> Seq<char> {
    match kid {
        Some(k) => k,
        None => "default"@,
    }
}

/// The text of a refusal for a token whose algorithm differs from the one
/// that the JWKS advertises for its key.
pub open spec fn mismatch_text(alg: Algorithm, kid: Seq<char>, key_alg: Algorithm) -> Seq<char> {
    "Token uses "@ + algorithm_name(alg) + " but JWKS key '"@ + kid + "' advertises "@
        + algorithm_name(key_alg)
}

/// Where a validation stands after a step that did not finish it.
pub enum Admission {
    /// The token is refused with this error.
    Rejected(ErrorView),
    /// The signature and claims are checked with this key and algorithm.
    Verify(DecodingKey, Algorithm),
    /// The JWKS is fetched, then the key of this `kid` is looked up again.
    Fetch(Algorithm, Seq<char>),
}

/// What the key found for `kid` (if any) decides: a missing key refuses
/// the token, a key advertised for another algorithm refuses it, and a key
/// of the token's own algorithm verifies it.
pub open spec fn key_verdict(alg: Algorithm, kid: Seq<char>, found: Option<(DecodingKey, Algorithm)>) -> Admission {
    match found {
        Some((key, key_alg)) => if alg == key_alg {
            Admission::Verify(key, alg)
        } else {
            Admission::Rejected(ErrorView::UnsupportedAlgorithm(mismatch_text(alg, kid, key_alg)))
        },
        None => Admission::Rejected(ErrorView::KeyNotFound(kid)),
    }
}

/// The first step of validating `token` at `now`: the header must decode
/// and name an allowed algorithm; the key of its `kid` is taken from the
/// cache where the cache is within its maximum age, and otherwise fetched,
/// unless the refresh rate limit holds the fetch back, in which case the
/// cache is looked up once more, whatever its age.
pub open spec fn admission(v: ValidatorModel, token: Seq<char>, now: nat) -> Admission {
    match jwt_header_of(token) {
        Err(msg) => Admission::Rejected(ErrorView::DecodingError("Invalid JWT header: "@ + msg)),
        Ok((name, kid_opt)) => match algorithm_named(name) {
            Some(alg) => if v.allowed_algorithms.contains(alg) {
                let kid = kid_or_default(kid_opt);
                match fresh_key(v.cache, kid, now, v.max_age) {
                    Some(found) => key_verdict(alg, kid, Some(found)),
                    None => if refresh_rate_limited(v.cache, now, v.refresh_interval) {
                        key_verdict(alg, kid, cached_key(v.cache, kid))
                    } else {
                        Admission::Fetch(alg, kid)
                    },
                }
            } else {
                Admission::Rejected(ErrorView::UnsupportedAlgorithm(name))
            },
            None => Admission::Rejected(ErrorView::UnsupportedAlgorithm(name)),
        },
    }
}

/// The outcomes of checking the signature and claims of `token` with
/// `key` for `alg`, against the configured `issuer` and `audience` (`exp`
/// always checked, `aud` checked where an audience is configured). With
/// `F` the decode facts of token, key and algorithm:
/// - the claims `F.claims`, only for a token whose header names `alg`,
///   whose signature verifies, and whose registered claims pass the checks;
/// - an expired token, only for such a header and signature with an `exp`;
/// - a wrong issuer or audience, only for such a header and signature with
///   an `iss` (an `aud`) that does not hold the configured one;
/// - another invalid token, only where one of the conditions for the
///   claims fails.
pub open spec fn decode_outcome(
    issuer: Option<Seq<char>>,
    audience: Option<Seq<char>>,
    token: Seq<char>,
    key: DecodingKey,
    alg: Algorithm,
    r: Result<serde_json::Value, JwtValidationError>,
) -> bool {
    let f = decode_facts(token, key, algorithm_name(alg));
    let verified = f.signature_ok && header_names(token, algorithm_name(alg));
    let passes = match f.registered {
        Some(rc) => claims_pass(rc, issuer, audience, audience is Some),
        None => false,
    };
    match r {
        Ok(claims) => verified && claims == f.claims && passes,
        Err(e) => match e@ {
            ErrorView::TokenExpired => verified && match f.registered {
                Some(rc) => rc.exp is Parsed,
                None => false,
            },
            ErrorView::InvalidAudience => verified && match (f.registered, audience) {
                (Some(rc), Some(a)) => !names_admit(rc.aud, a),
                _ => false,
            },
            ErrorView::InvalidIssuer => verified && match (f.registered, issuer) {
                (Some(rc), Some(i)) => !names_admit(rc.iss, i),
                _ => false,
            },
            ErrorView::InvalidToken(_) => !(verified && passes),
            _ => false,
        },
    }
}

/// Whether a finished result for `token` is what the admission calls for,
/// under the configured `issuer` and `audience`.
pub open spec fn settles(
    a: Admission,
    issuer: Option<Seq<char>>,
    audience: Option<Seq<char>>,
    token: Seq<char>,
    r: Result<serde_json::Value, JwtValidationError>,
) -> bool {
    match a {
        Admission::Rejected(ev) => r matches Err(e) && e@ == ev,
        Admission::Verify(key, alg) => decode_outcome(issuer, audience, token, key, alg, r),
        Admission::Fetch(_, _) => false,
    }
}

/// A validation that waits for a JWKS fetch.
pub struct PendingValidation {
    token: String,
    algorithm: Algorithm,
    kid: String,
}

impl PendingValidation {
    /// The token under validation.
    pub closed spec fn token(&self) -> Seq<char> {
        self.token@
    }

    /// The token's (allowed) algorithm.
    pub closed spec fn algorithm(&self) -> Algorithm {
        self.algorithm
    }

    /// The `kid` the key is looked up by.
    pub closed spec fn kid(&self) -> Seq<char> {
        self.kid@
    }
}

/// The result of the first step of a validation.
pub enum ValidationStep {
    /// The validation is finished: the claims, or the refusal.
    Done(Result<serde_json::Value, JwtValidationError>),
    /// The JWKS has to be fetched before the validation can finish.
    FetchKeys(PendingValidation),
}

/// How the JWKS is fetched.
pub enum FetchPlan {
    /// One attempt, with no timeout.
    Single,
    /// The retry loop of `config`, bounded as a whole by `timeout`.
    Retry { config: RetryConfig, timeout: TimeSpan },
}

impl JwtValidator {
    /// A validator for the JWKS at `jwks_uri` that requires the audience
    /// `audience`, allows RS256 and ES256, refreshes at most every 60 s,
    /// never serves a stale cache, makes a single fetch attempt and puts no
    /// maximum age on cached keys.
    pub fn new(jwks_uri: &str, audience: &str) -> (v: JwtValidator)
        ensures
            v@ == (ValidatorModel {
                jwks_uri: jwks_uri@,
                allowed_algorithms: seq![Algorithm::RS256, Algorithm::ES256],
                issuer: None,
                audience: Some(audience@),
                refresh_interval: 60_000_000_000nat,
                stale_window: 0,
                retry: None,
                max_age: None,
                cache: None,
            }),
    {
        let mut allowed = Vec::new();
        allowed.push(Algorithm::RS256);
        allowed.push(Algorithm::ES256);
        let v = JwtValidator {
            jwks_uri: jwks_uri.to_owned(),
            allowed_algorithms: allowed,
            issuer: None,
            audience: Some(audience.to_owned()),
            refresh_interval: TimeSpan::from_secs(60),
            stale_window: TimeSpan::zero(),
            retry: None,
            max_age: None,
            cache: JwksCache::new(),
        };
        assert(v@.allowed_algorithms =~= seq![Algorithm::RS256, Algorithm::ES256]);
        v
    }

    /// Requires the issuer `issuer`.
    pub fn with_issuer(self, issuer: &str) -> (v: JwtValidator)
        ensures
            v@ == (ValidatorModel { issuer: Some(issuer@), ..self@ }),
    {
        JwtValidator { issuer: Some(issuer.to_owned()), ..self }
    }

    /// Allows exactly the given algorithms.
    pub fn with_algorithms(self, algorithms: Vec<Algorithm>) -> (v: JwtValidator)
        ensures
            v@ == (ValidatorModel { allowed_algorithms: algorithms@, ..self@ }),
    {
        JwtValidator { allowed_algorithms: algorithms, ..self }
    }

    /// Starts no JWKS fetch sooner than `interval` after a successful one.
    pub fn with_refresh_interval(self, interval: TimeSpan) -> (v: JwtValidator)
        ensures
            v@ == (ValidatorModel { refresh_interval: interval@, ..self@ }),
    {
        JwtValidator { refresh_interval: interval, ..self }
    }

    /// How long a cached JWKS may keep being served after a failed refresh,
    /// measured from the last successful fetch. Defaults to zero: no
    /// stale-serve, a refresh failure propagates.
    pub fn with_stale_window(self, window: TimeSpan) -> (v: JwtValidator)
        ensures
            v@ == (ValidatorModel { stale_window: window@, ..self@ }),
    {
        JwtValidator { stale_window: window, ..self }
    }

    /// Retry a failed JWKS fetch up to `attempts` times (at least once),
    /// with exponential backoff starting at `base_delay` between attempts,
    /// the whole loop bounded by a timeout ceiling derived from both.
    pub fn with_retry(self, attempts: usize, base_delay: TimeSpan) -> (v: JwtValidator)
        ensures
            v@.retry matches Some(c) && c.attempt_limit() == (if attempts >= 1 {
                attempts as nat
            } else {
                1
            }) && c.base() == base_delay@,
            v@ == (ValidatorModel { retry: v@.retry, ..self@ }),
    {
        JwtValidator { retry: Some(RetryConfig::new(attempts, base_delay)), ..self }
    }

    /// Treats a cached key as missing once the cache is older than
    /// `max_age`, so that it is fetched again (as far as the refresh rate
    /// limit lets it).
    pub fn with_max_age(self, max_age: TimeSpan) -> (v: JwtValidator)
        ensures
            v@ == (ValidatorModel { max_age: Some(max_age@), ..self@ }),
    {
        JwtValidator { max_age: Some(max_age), ..self }
    }

    /// The JWKS endpoint.
    pub fn jwks_uri(&self) -> (s: &str)
        ensures
            s@ == self@.jwks_uri,
    {
        self.jwks_uri.as_str()
    }

    /// How the JWKS is fetched: a single attempt without retry; otherwise
    /// the retry loop of at least one attempt, always bounded by its
    /// timeout ceiling. `None` where the ceiling passes the largest span.
    pub fn fetch_plan(&self) -> (p: Option<FetchPlan>)
        ensures
            self@.retry is None ==> p == Some(FetchPlan::Single),
            self@.retry matches Some(c) ==> {
                let ceiling = ceiling_of(c.base(), c.attempt_limit());
                &&& (p is None <==> ceiling > MAX_SPAN_NANOS)
                &&& p matches Some(FetchPlan::Retry { config, timeout }) ==> config == c
                    && timeout@ == ceiling && c.attempt_limit() >= 1
                &&& p matches Some(plan) ==> plan is Retry
            },
    {
        match self.retry {
            None => Some(FetchPlan::Single),
            Some(config) => {
                // A configuration always holds at least one attempt.
                let _ = config.attempts();
                match config.checked_ceiling() {
                    None => None,
                    Some(ceiling) => Some(FetchPlan::Retry { config, timeout: ceiling }),
                }
            },
        }
    }

    /// The checks handed to `jsonwebtoken::decode` for a token signed with
    /// `alg`: that algorithm alone, the configured issuer and audience,
    /// `exp` always, `aud` only with a configured audience.
    pub fn claim_checks(&self, alg: Algorithm) -> (c: ClaimChecks)
        ensures
            c.algorithm@ == algorithm_name(alg),
            opt_text(c.issuer) == self@.issuer,
            opt_text(c.audience) == self@.audience,
            c.validate_exp,
            c.validate_aud == (self@.audience is Some),
    {
        ClaimChecks {
            algorithm: alg.name(),
            issuer: self.issuer.clone(),
            audience: self.audience.clone(),
            validate_exp: true,
            validate_aud: self.audience.is_some(),
        }
    }

    fn allows(&self, alg: Algorithm) -> (b: bool)
        ensures
            b == self@.allowed_algorithms.contains(alg),
    {
        let mut i: usize = 0;
        while i < self.allowed_algorithms.len()
            invariant
                i <= self.allowed_algorithms@.len(),
                forall|j: int| 0 <= j < i ==> self.allowed_algorithms@[j] != alg,
            decreases self.allowed_algorithms@.len() - i,
        {
            if self.allowed_algorithms[i] == alg {
                return true;
            }
            i = i + 1;
        }
        false
    }

    /// Finishes a validation with the key found for `kid`, if any.
    fn verify_with(
        &self,
        token: &str,
        alg: Algorithm,
        kid: &String,
        found: Option<(DecodingKey, Algorithm)>,
    ) -> (r: Result<serde_json::Value, JwtValidationError>)
        ensures
            settles(key_verdict(alg, kid@, found), self@.issuer, self@.audience, token@, r),
    {
        match found {
            None => Err(JwtValidationError::KeyNotFound(kid.clone())),
            Some((key, key_alg)) => {
                if alg != key_alg {
                    let mut text = prefixed("Token uses ", alg.name().as_str());
                    text.append(" but JWKS key '");
                    text.append(kid.as_str());
                    text.append("' advertises ");
                    text.append(key_alg.name().as_str());
                    Err(JwtValidationError::UnsupportedAlgorithm(text))
                } else {
                    let checks = self.claim_checks(alg);
                    assert(algorithm_named(algorithm_name(alg)) is Some);
                    match decode_token(token, &key, &checks) {
                        Ok(claims) => Ok(claims),
                        Err(f) => Err(JwtValidationError::from_decode_failure(f)),
                    }
                }
            },
        }
    }

    /// Validate a JWT token, first step: decode the header, check its
    /// algorithm against the allowlist, and find the key of its `kid` in
    /// the cache. Finishes the validation, or asks for a JWKS fetch where
    /// the key is missing (or past the maximum age) and the refresh rate
    /// limit lets a fetch start.
    pub fn validate(&self, token: &str, now: TimeSpan) -> (step: ValidationStep)
        ensures
            match admission(self@, token@, now@) {
                Admission::Fetch(alg, kid) => step matches ValidationStep::FetchKeys(p) && p.token()
                    == token@ && p.algorithm() == alg && p.kid() == kid,
                a => step matches ValidationStep::Done(r) && settles(
                    a,
                    self@.issuer,
                    self@.audience,
                    token@,
                    r,
                ),
            },
    {
        match read_header(token) {
            Err(msg) => ValidationStep::Done(
                Err(JwtValidationError::DecodingError(prefixed("Invalid JWT header: ", msg.as_str()))),
            ),
            Ok((name, kid_opt)) => {
                let alg = match Algorithm::from_name(name.as_str()) {
                    Some(a) => {
                        if self.allows(a) {
                            a
                        } else {
                            return ValidationStep::Done(
                                Err(JwtValidationError::UnsupportedAlgorithm(name)),
                            );
                        }
                    },
                    None => {
                        return ValidationStep::Done(
                            Err(JwtValidationError::UnsupportedAlgorithm(name)),
                        );
                    },
                };
                let kid = match kid_opt {
                    Some(k) => k,
                    None => "default".to_owned(),
                };
                match self.cache.fresh_key(kid.as_str(), now, self.max_age) {
                    Some(found) => ValidationStep::Done(
                        self.verify_with(token, alg, &kid, Some(found)),
                    ),
                    None => {
                        if self.cache.rate_limited(now, self.refresh_interval) {
                            let found = self.cache.key(kid.as_str());
                            ValidationStep::Done(self.verify_with(token, alg, &kid, found))
                        } else {
                            ValidationStep::FetchKeys(
                                PendingValidation { token: token.to_owned(), algorithm: alg, kid },
                            )
                        }
                    },
                }
            },
        }
    }

    /// Validate a JWT token, second step: take in the outcome of the JWKS
    /// fetch made at `now` (fetched keys replace the cache; a failure is
    /// passed on unless the cache may still be served), then look the key
    /// up again and finish.
    pub fn resume_validation(
        &mut self,
        pending: PendingValidation,
        fetched: Result<KeySet, JwtValidationError>,
        now: TimeSpan,
    ) -> (r: Result<serde_json::Value, JwtValidationError>)
        ensures
            final(self)@ == (ValidatorModel {
                cache: refreshed(old(self)@.cache, fetched_keys(fetched), now@),
                ..old(self)@
            }),
            fetched matches Err(fe) ==> (!serves_stale(old(self)@.cache, now@, old(self)@.stale_window)
                ==> r == Err::<serde_json::Value, JwtValidationError>(fe)),
            (fetched is Ok || serves_stale(old(self)@.cache, now@, old(self)@.stale_window))
                ==> settles(
                key_verdict(pending.algorithm(), pending.kid(), cached_key(final(self)@.cache, pending.kid())),
                old(self)@.issuer,
                old(self)@.audience,
                pending.token(),
                r,
            ),
    {
        match self.cache.apply_refresh(fetched, now, self.stale_window) {
            Err(e) => Err(e),
            Ok(()) => {
                let found = self.cache.key(pending.kid.as_str());
                self.verify_with(pending.token.as_str(), pending.algorithm, &pending.kid, found)
            },
        }
    }
}

} // verus!

//! The in-memory JWKS cache and its refresh policy: rate limit, maximum
//! age of a cached key, and stale serving after a failed refresh.

use crate::algorithm::Algorithm;
use crate::error::JwtValidationError;
use crate::jwks::{KeyMap, KeySet};
use crate::time::{opt_span, span_since, TimeSpan};
use jsonwebtoken::DecodingKey;
use vstd::prelude::*;

verus! {

/// The keys of the last successful fetch and when it happened, if any.
pub type CacheModel = Option<(KeyMap, nat)>;

/// The key filed under `kid` in the cache, whatever its age.
pub open spec fn cached_key(m: CacheModel, kid: Seq<char>) -> Option<(DecodingKey, Algorithm)> {
    match m {
        Some((keys, _)) => if keys.dom().contains(kid) {
            Some(keys[kid])
        } else {
            None
        },
        None => None,
    }
}

/// Whether the cache is no older than `max_age` at `now` (always, without one).
pub open spec fn within_max_age(m: CacheModel, now: nat, max_age: Option<nat>) -> bool {
    match (m, max_age) {
        (Some((_, at)), Some(limit)) => span_since(now, at) <= limit,
        _ => true,
    }
}

/// The key filed under `kid`, where the cache is within its maximum age.
pub open spec fn fresh_key(m: CacheModel, kid: Seq<char>, now: nat, max_age: Option<nat>) -> Option<
    (DecodingKey, Algorithm),
> {
    if within_max_age(m, now, max_age) {
        cached_key(m, kid)
    } else {
        None
    }
}

/// Whether the last successful fetch is less than `interval` before `now`,
/// so that no new fetch may start.
pub open spec fn refresh_rate_limited(m: CacheModel, now: nat, interval: nat) -> bool {
    match m {
        Some((_, at)) => span_since(now, at) < interval,
        None => false,
    }
}

/// Whether, after a failed fetch at `now`, the cached keys may still be served.
pub open spec fn serves_stale(m: CacheModel, now: nat, window: nat) -> bool {
    match m {
        Some((_, at)) => span_since(now, at) <= window,
        None => false,
    }
}

/// The cache after a fetch at `now`: the fetched keys where it succeeded,
/// unchanged where it failed.
pub open spec fn refreshed(m: CacheModel, fetched: Option<KeyMap>, now: nat) -> CacheModel {
    match fetched {
        Some(keys) => Some((keys, now)),
        None => m,
    }
}

/// A fetch outcome with its key set taken by its map.
pub open spec fn fetched_keys(r: Result<KeySet, JwtValidationError>) -> Option<KeyMap> {
    match r {
        Ok(keys) => Some(keys@),
        Err(_) => None,
    }
}

struct CachedJwks {
    keys: KeySet,
    last_refresh_at: TimeSpan,
}

/// The JWKS cache: the keys of the last successful fetch and its time.
pub struct JwksCache {
    cached: Option<CachedJwks>,
}

impl View for JwksCache {
    type V = CacheModel;

    closed spec fn view(&self) -> CacheModel {
        match self.cached {
            Some(c) => Some((c.keys@, c.last_refresh_at@)),
            None => None,
        }
    }
}

impl JwksCache {
    /// The cache before any fetch.
    pub fn new() -> (c: JwksCache)
        ensures
            c@ is None,
    {
        JwksCache { cached: None }
    }

    /// The key filed under `kid`, whatever the cache's age.
    pub fn key(&self, kid: &str) -> (r: Option<(DecodingKey, Algorithm)>)
        ensures
            r == cached_key(self@, kid@),
    {
        match &self.cached {
            Some(c) => c.keys.get(kid),
            None => None,
        }
    }

    /// The key filed under `kid`, unless the cache is older than `max_age`
    /// at `now`: past that age a cached key counts as missing.
    pub fn fresh_key(&self, kid: &str, now: TimeSpan, max_age: Option<TimeSpan>) -> (r: Option<
        (DecodingKey, Algorithm),
    >)
        ensures
            r == fresh_key(self@, kid@, now@, opt_span(max_age)),
    {
        match &self.cached {
            Some(c) => {
                let too_old = match max_age {
                    Some(limit) => limit.lt(&now.since(c.last_refresh_at)),
                    None => false,
                };
                if too_old {
                    None
                } else {
                    c.keys.get(kid)
                }
            },
            None => None,
        }
    }

    /// Whether a fetch at `now` is held back because the last successful
    /// one is less than `interval` ago.
    pub fn rate_limited(&self, now: TimeSpan, interval: TimeSpan) -> (b: bool)
        ensures
            b == refresh_rate_limited(self@, now@, interval@),
    {
        match &self.cached {
            Some(c) => now.since(c.last_refresh_at).lt(&interval),
            None => false,
        }
    }

    /// Takes in the outcome of a fetch made at `now`. Fetched keys replace
    /// the cache; a failure leaves it as it is and is answered with `Ok`
    /// where the cache may still be served (no older than `stale_window`),
    /// with the failure itself otherwise.
    pub fn apply_refresh(
        &mut self,
        fetched: Result<KeySet, JwtValidationError>,
        now: TimeSpan,
        stale_window: TimeSpan,
    ) -> (r: Result<(), JwtValidationError>)
        ensures
            final(self)@ == refreshed(old(self)@, fetched_keys(fetched), now@),
            fetched is Ok ==> r is Ok,
            fetched is Err ==> (r is Ok <==> serves_stale(old(self)@, now@, stale_window@)),
            r matches Err(e) ==> fetched == Err::<KeySet, JwtValidationError>(e),
    {
        match fetched {
            Ok(keys) => {
                self.cached = Some(CachedJwks { keys, last_refresh_at: now });
                Ok(())
            },
            Err(err) => {
                let stale_ok = match &self.cached {
                    Some(c) => now.since(c.last_refresh_at).le(&stale_window),
                    None => false,
                };
                if stale_ok {
                    Ok(())
                } else {
                    Err(err)
                }
            },
        }
    }
}

} // verus!

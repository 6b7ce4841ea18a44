//! Properties of the validation decisions that span several steps.

use crate::algorithm::{algorithm_name, algorithm_named, Algorithm};
use crate::backend::{claims_pass, decode_facts, header_names, jwt_header_of};
use crate::cache::{
    cached_key, fresh_key, refresh_rate_limited, refreshed, serves_stale, within_max_age,
    CacheModel,
};
use crate::jwks::{jwks_key_map, key_entry, key_id, JwkKey, KeyMap};
use crate::time::span_since;
use crate::error::JwtValidationError;
use crate::validator::{admission, key_verdict, kid_or_default, settles, Admission, ValidatorModel};
use jsonwebtoken::DecodingKey;
use vstd::prelude::*;

verus! {

/// A token is only ever checked with an algorithm that its header names,
/// that the allowlist holds, and that the JWKS advertises for the key of
/// its `kid`; a fetch is only asked for on behalf of such a header.
pub proof fn law_admission_requires_allowed_advertised_algorithm(
    v: ValidatorModel,
    token: Seq<char>,
    now: nat,
)
    ensures
        admission(v, token, now) matches Admission::Verify(key, alg) ==> {
            &&& jwt_header_of(token) matches Ok((name, kid_opt))
            &&& algorithm_named(name) == Some(alg)
            &&& v.allowed_algorithms.contains(alg)
            &&& cached_key(v.cache, kid_or_default(kid_opt)) == Some((key, alg))
        },
        admission(v, token, now) matches Admission::Fetch(alg, kid) ==> {
            &&& jwt_header_of(token) matches Ok((name, kid_opt))
            &&& algorithm_named(name) == Some(alg)
            &&& v.allowed_algorithms.contains(alg)
            &&& kid == kid_or_default(kid_opt)
        },
{
}

/// A token that the first validation step accepts passed every check: its
/// header names an allowed algorithm, the JWKS advertises that algorithm
/// for the key of its `kid`, its signature verifies with that key, and its
/// registered claims carry an `exp` and hold the configured issuer and
/// audience (where present); the claims handed back are its payload.
pub proof fn law_accepted_token_passed_every_check(
    v: ValidatorModel,
    token: Seq<char>,
    now: nat,
    r: Result<serde_json::Value, JwtValidationError>,
)
    requires
        settles(admission(v, token, now), v.issuer, v.audience, token, r),
        r is Ok,
    ensures
        ({
            &&& admission(v, token, now) matches Admission::Verify(key, alg)
            &&& jwt_header_of(token) matches Ok((name, kid_opt))
            &&& algorithm_named(name) == Some(alg)
            &&& v.allowed_algorithms.contains(alg)
            &&& cached_key(v.cache, kid_or_default(kid_opt)) == Some((key, alg))
            &&& header_names(token, algorithm_name(alg))
            &&& decode_facts(token, key, algorithm_name(alg)).signature_ok
            &&& decode_facts(token, key, algorithm_name(alg)).registered matches Some(rc)
            &&& claims_pass(rc, v.issuer, v.audience, v.audience is Some)
            &&& r matches Ok(claims) && claims == decode_facts(token, key, algorithm_name(alg)).claims
        }),
{
}

/// After a fetch, a token that the second step accepts passed the same
/// checks with the key that the refreshed cache holds for its `kid`.
pub proof fn law_resumed_accepted_token_passed_every_check(
    issuer: Option<Seq<char>>,
    audience: Option<Seq<char>>,
    cache: CacheModel,
    alg: Algorithm,
    kid: Seq<char>,
    token: Seq<char>,
    r: Result<serde_json::Value, JwtValidationError>,
)
    requires
        settles(key_verdict(alg, kid, cached_key(cache, kid)), issuer, audience, token, r),
        r is Ok,
    ensures
        ({
            &&& cached_key(cache, kid) matches Some((key, key_alg))
            &&& key_alg == alg
            &&& decode_facts(token, key, algorithm_name(alg)).signature_ok
            &&& header_names(token, algorithm_name(alg))
            &&& decode_facts(token, key, algorithm_name(alg)).registered matches Some(rc)
            &&& claims_pass(rc, issuer, audience, audience is Some)
        }),
{
}

/// After a fetch, a token is only checked with the key of its `kid` when
/// the JWKS advertises that key for the token's own algorithm.
pub proof fn law_resumed_admission_requires_advertised_algorithm(
    cache: CacheModel,
    alg: Algorithm,
    kid: Seq<char>,
)
    ensures
        key_verdict(alg, kid, cached_key(cache, kid)) matches Admission::Verify(key, a) ==> a == alg
            && cached_key(cache, kid) == Some((key, alg)),
        !(key_verdict(alg, kid, cached_key(cache, kid)) is Fetch),
{
}

/// A key found in a cache within its maximum age never leads to a fetch.
pub proof fn law_fresh_cache_hit_needs_no_fetch(v: ValidatorModel, token: Seq<char>, now: nat)
    ensures
        (jwt_header_of(token) matches Ok((_, kid_opt)) && fresh_key(
            v.cache,
            kid_or_default(kid_opt),
            now,
            v.max_age,
        ) is Some) ==> !(admission(v, token, now) is Fetch),
{
}

/// A `kid` missing from the cache, or found only past the maximum age,
/// triggers a fetch for an allowed algorithm, unless the refresh rate
/// limit holds it back.
pub proof fn law_missing_key_triggers_fetch(
    v: ValidatorModel,
    token: Seq<char>,
    now: nat,
    name: Seq<char>,
    kid_opt: Option<Seq<char>>,
    alg: Algorithm,
)
    requires
        jwt_header_of(token) == Ok::<(Seq<char>, Option<Seq<char>>), Seq<char>>((name, kid_opt)),
        algorithm_named(name) == Some(alg),
        v.allowed_algorithms.contains(alg),
        fresh_key(v.cache, kid_or_default(kid_opt), now, v.max_age) is None,
        !refresh_rate_limited(v.cache, now, v.refresh_interval),
    ensures
        admission(v, token, now) == Admission::Fetch(alg, kid_or_default(kid_opt)),
{
}

/// Past the maximum age but within the refresh rate limit, the cached key
/// of the token's algorithm is still used: no fetch, no refusal.
pub proof fn law_rate_limited_refresh_serves_cached_key(
    v: ValidatorModel,
    token: Seq<char>,
    now: nat,
    name: Seq<char>,
    kid_opt: Option<Seq<char>>,
    alg: Algorithm,
    key: DecodingKey,
)
    requires
        jwt_header_of(token) == Ok::<(Seq<char>, Option<Seq<char>>), Seq<char>>((name, kid_opt)),
        algorithm_named(name) == Some(alg),
        v.allowed_algorithms.contains(alg),
        !within_max_age(v.cache, now, v.max_age),
        refresh_rate_limited(v.cache, now, v.refresh_interval),
        cached_key(v.cache, kid_or_default(kid_opt)) == Some((key, alg)),
    ensures
        admission(v, token, now) == Admission::Verify(key, alg),
{
}

/// What a lookup gives back after a successful refresh: the fetched key of
/// the `kid`, counted as fresh at the time of the fetch whatever the
/// maximum age.
pub proof fn law_refresh_read_back(
    m: CacheModel,
    keys: KeyMap,
    now: nat,
    kid: Seq<char>,
    max_age: Option<nat>,
)
    ensures
        cached_key(refreshed(m, Some(keys), now), kid) == (if keys.dom().contains(kid) {
            Some(keys[kid])
        } else {
            None
        }),
        fresh_key(refreshed(m, Some(keys), now), kid, now, max_age) == cached_key(
            refreshed(m, Some(keys), now),
            kid,
        ),
{
}

/// A failed fetch leaves the cache as it was.
pub proof fn law_failed_refresh_keeps_cache(m: CacheModel, now: nat)
    ensures
        refreshed(m, None, now) == m,
{
}

/// No fetch starts sooner than the refresh interval after a successful one.
pub proof fn law_refresh_interval_spaces_fetches(
    m: CacheModel,
    keys: KeyMap,
    at: nat,
    later: nat,
    interval: nat,
)
    requires
        span_since(later, at) < interval,
    ensures
        refresh_rate_limited(refreshed(m, Some(keys), at), later, interval),
{
}

/// With a zero stale window, a failed fetch is never swallowed once any
/// time has passed since the last successful one; within the window it
/// always is.
pub proof fn law_stale_window_bounds_stale_serving(m: CacheModel, now: nat, window: nat)
    ensures
        m matches Some((_, at)) ==> (serves_stale(m, now, window) <==> span_since(now, at) <= window),
        m matches Some((_, at)) && window == 0 && now > at ==> !serves_stale(m, now, window),
        m is None ==> !serves_stale(m, now, window),
{
}

/// A fetch is held back exactly while the last successful one is less
/// than the refresh interval ago (a clock reading before that fetch counts
/// as no time passed): once the interval has passed, or before any
/// successful fetch, a fetch may start.
pub proof fn law_refresh_allowed_once_interval_passed(
    m: CacheModel,
    now: nat,
    interval: nat,
)
    ensures
        match m {
            Some((_, at)) => {
                &&& now >= at ==> (refresh_rate_limited(m, now, interval) <==> now < at + interval)
                &&& now < at ==> (refresh_rate_limited(m, now, interval) <==> interval > 0)
            },
            None => !refresh_rate_limited(m, now, interval),
        },
{
}

/// A key that the cache holds within its maximum age, advertised for the
/// token's own allowed algorithm, is used at once: the token goes straight
/// to signature and claim checks with that key.
pub proof fn law_fresh_key_of_token_algorithm_verifies(
    v: ValidatorModel,
    token: Seq<char>,
    now: nat,
    name: Seq<char>,
    kid_opt: Option<Seq<char>>,
    alg: Algorithm,
    key: DecodingKey,
)
    requires
        jwt_header_of(token) == Ok::<(Seq<char>, Option<Seq<char>>), Seq<char>>((name, kid_opt)),
        algorithm_named(name) == Some(alg),
        v.allowed_algorithms.contains(alg),
        fresh_key(v.cache, kid_or_default(kid_opt), now, v.max_age) == Some((key, alg)),
    ensures
        admission(v, token, now) == Admission::Verify(key, alg),
{
}

/// A usable JWKS key is filed under its `kid`, whatever keys come before
/// it: the map of a document grows by exactly that entry.
pub proof fn law_usable_key_is_filed(s: Seq<JwkKey>, k: JwkKey)
    requires
        key_entry(k) is Some,
    ensures
        jwks_key_map(s.push(k)) == jwks_key_map(s).insert(key_id(k), key_entry(k).unwrap()),
        jwks_key_map(s.push(k)).dom().contains(key_id(k)),
        jwks_key_map(s.push(k))[key_id(k)] == key_entry(k).unwrap(),
{
    assert(s.push(k).drop_last() =~= s);
    assert(s.push(k).last() == k);
}

/// An unusable JWKS key changes nothing, here or for the keys after it.
pub proof fn law_unusable_key_is_ignored(s: Seq<JwkKey>, u: JwkKey, k: JwkKey)
    requires
        key_entry(u) is None,
    ensures
        jwks_key_map(s.push(u)) == jwks_key_map(s),
        jwks_key_map(s.push(u).push(k)) == jwks_key_map(s.push(k)),
{
    assert(s.push(u).drop_last() =~= s);
    assert(s.push(u).last() == u);
    assert(s.push(u).push(k).drop_last() =~= s.push(u));
    assert(s.push(k).drop_last() =~= s);
}

/// Each usable key of a JWKS document ends up in the key map under its
/// `kid`, with its own key and algorithm, unless a later usable key has
/// the same `kid`; the other keys of the document do not matter.
pub proof fn law_usable_key_kept_unless_replaced(keys: Seq<JwkKey>, i: int)
    requires
        0 <= i < keys.len(),
        key_entry(keys[i]) is Some,
        forall|j: int|
            i < j < keys.len() ==> key_id(#[trigger] keys[j]) != key_id(keys[i]) || key_entry(
                keys[j],
            ) is None,
    ensures
        jwks_key_map(keys).dom().contains(key_id(keys[i])),
        jwks_key_map(keys)[key_id(keys[i])] == key_entry(keys[i]).unwrap(),
    decreases keys.len(),
{
    if i < keys.len() - 1 {
        let shorter = keys.drop_last();
        assert forall|j: int| i < j < shorter.len() implies key_id(#[trigger] shorter[j]) != key_id(
            shorter[i],
        ) || key_entry(shorter[j]) is None by {
            assert(shorter[j] == keys[j]);
        }
        assert(shorter[i] == keys[i]);
        law_usable_key_kept_unless_replaced(shorter, i);
        let last = keys[keys.len() - 1];
        assert(keys.last() == last);
        assert(key_id(last) != key_id(keys[i]) || key_entry(last) is None);
    }
}

} // verus!

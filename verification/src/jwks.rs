//! JWKS documents and the key set that the validator builds from them.

use crate::algorithm::{str_is, Algorithm};
use crate::backend::{ec_components_key, ec_key, opt_text, rsa_components_key, rsa_key, copy_key};
use crate::error::{ErrorView, JwksFetchErrorKind, JwtValidationError};
use jsonwebtoken::DecodingKey;
use vstd::prelude::*;

verus! {

/// One key of a JWKS document, with the members the validator reads.
pub struct JwkKey {
    pub kty: String,
    pub kid: Option<String>,
    pub alg: Option<String>,
    pub n: Option<String>,
    pub e: Option<String>,
    pub crv: Option<String>,
    pub x: Option<String>,
    pub y: Option<String>,
}

/// A JWKS document.
pub struct JwksResponse {
    pub keys: Vec<JwkKey>,
}

/// What a key set maps a `kid` to: the decoding key and its algorithm.
pub type KeyMap = Map<Seq<char>, (DecodingKey, Algorithm)>;

/// The `kid` a JWKS key is filed under: its own, or `"default"`.
pub open spec fn key_id(k: JwkKey) -> Seq<char> {
    match k.kid {
        Some(s) => s@,
        None => "default"@,
    }
}

/// The algorithm of an RSA key: its `alg` where that names an RSASSA
/// algorithm, RS256 otherwise.
pub open spec fn rsa_algorithm(alg: Option<Seq<char>>) -> Algorithm {
    match alg {
        Some(a) => if a == "RS256"@ {
            Algorithm::RS256
        } else if a == "RS384"@ {
            Algorithm::RS384
        } else if a == "RS512"@ {
            Algorithm::RS512
        } else {
            Algorithm::RS256
        },
        None => Algorithm::RS256,
    }
}

/// The algorithm of an EC key by its curve; none for another curve.
pub open spec fn ec_algorithm(crv: Seq<char>) -> Option<Algorithm> {
    if crv == "P-256"@ {
        Some(Algorithm::ES256)
    } else if crv == "P-384"@ {
        Some(Algorithm::ES384)
    } else {
        None
    }
}

/// The decoding key and algorithm that a JWKS key yields, if it is usable:
/// an RSA key with `n` and `e` that decode, or an EC key with `x` and `y`
/// that decode on the P-256 or P-384 curve.
pub open spec fn key_entry(k: JwkKey) -> Option<(DecodingKey, Algorithm)> {
    if k.kty@ == "RSA"@ {
        match (k.n, k.e) {
            (Some(n), Some(e)) => match rsa_components_key(n@, e@) {
                Some(dk) => Some((dk, rsa_algorithm(opt_text(k.alg)))),
                None => None,
            },
            _ => None,
        }
    } else if k.kty@ == "EC"@ {
        match (k.x, k.y, k.crv) {
            (Some(x), Some(y), Some(crv)) => match ec_components_key(x@, y@) {
                Some(dk) => match ec_algorithm(crv@) {
                    Some(a) => Some((dk, a)),
                    None => None,
                },
                None => None,
            },
            _ => None,
        }
    } else {
        None
    }
}

/// The keys of a JWKS document, in order: each usable key is filed under
/// its `kid`, a later key replacing an earlier one of the same `kid`.
pub open spec fn jwks_key_map(keys: Seq<JwkKey>) -> KeyMap
    decreases keys.len(),
{
    if keys.len() == 0 {
        Map::empty()
    } else {
        let earlier = jwks_key_map(keys.drop_last());
        match key_entry(keys.last()) {
            Some(entry) => earlier.insert(key_id(keys.last()), entry),
            None => earlier,
        }
    }
}

/// The algorithm of an RSA key.
fn rsa_key_algorithm(alg: &Option<String>) -> (a: Algorithm)
    ensures
        a == rsa_algorithm(opt_text(*alg)),
{
    match alg {
        Some(a) => if str_is(a.as_str(), "RS256") {
            Algorithm::RS256
        } else if str_is(a.as_str(), "RS384") {
            Algorithm::RS384
        } else if str_is(a.as_str(), "RS512") {
            Algorithm::RS512
        } else {
            Algorithm::RS256
        },
        None => Algorithm::RS256,
    }
}

/// The algorithm of an EC key by its curve.
fn ec_key_algorithm(crv: &str) -> (a: Option<Algorithm>)
    ensures
        a == ec_algorithm(crv@),
{
    if str_is(crv, "P-256") {
        Some(Algorithm::ES256)
    } else if str_is(crv, "P-384") {
        Some(Algorithm::ES384)
    } else {
        None
    }
}

/// The decoding key and algorithm of one JWKS key, if it is usable.
pub fn usable_key(k: &JwkKey) -> (r: Option<(DecodingKey, Algorithm)>)
    ensures
        r == key_entry(*k),
{
    if str_is(k.kty.as_str(), "RSA") {
        match (&k.n, &k.e) {
            (Some(n), Some(e)) => match rsa_key(n.as_str(), e.as_str()) {
                Some(dk) => Some((dk, rsa_key_algorithm(&k.alg))),
                None => None,
            },
            _ => None,
        }
    } else if str_is(k.kty.as_str(), "EC") {
        match (&k.x, &k.y, &k.crv) {
            (Some(x), Some(y), Some(crv)) => match ec_key(x.as_str(), y.as_str()) {
                Some(dk) => match ec_key_algorithm(crv.as_str()) {
                    Some(a) => Some((dk, a)),
                    None => None,
                },
                None => None,
            },
            _ => None,
        }
    } else {
        None
    }
}


/// One key of a key set.
struct KeyEntry {
    kid: String,
    key: DecodingKey,
    alg: Algorithm,
}

/// Whether no two entries share a `kid`.
spec fn kids_unique(s: Seq<KeyEntry>) -> bool {
    forall|i: int, j: int|
        0 <= i < s.len() && 0 <= j < s.len() && (#[trigger] s[i].kid)@ == (#[trigger] s[j].kid)@
            ==> i == j
}

/// Whether some entry has the `kid`.
spec fn has_kid(s: Seq<KeyEntry>, k: Seq<char>) -> bool {
    exists|i: int| 0 <= i < s.len() && (#[trigger] s[i].kid)@ == k
}

/// The position of an entry with the `kid`.
spec fn kid_index(s: Seq<KeyEntry>, k: Seq<char>) -> int {
    choose|i: int| 0 <= i < s.len() && (#[trigger] s[i].kid)@ == k
}

/// The map that a sequence of entries with distinct `kid`s stands for.
spec fn entries_map(s: Seq<KeyEntry>) -> KeyMap {
    Map::new(
        |k: Seq<char>| has_kid(s, k),
        |k: Seq<char>| (s[kid_index(s, k)].key, s[kid_index(s, k)].alg),
    )
}

/// In entries with distinct `kid`s, the entry at `i` is the one its `kid` maps to.
proof fn lemma_entry_at(s: Seq<KeyEntry>, i: int)
    requires
        kids_unique(s),
        0 <= i < s.len(),
    ensures
        entries_map(s).dom().contains(s[i].kid@),
        entries_map(s)[s[i].kid@] == (s[i].key, s[i].alg),
{
    let k = s[i].kid@;
    assert(has_kid(s, k));
    let j = kid_index(s, k);
    assert(s[j].kid@ == k);
}

/// A set of decoding keys, each with its algorithm, filed by `kid`.
///
/// The keys sit in a vector whose entries never share a `kid`, read
/// through the map they stand for: std's `HashMap` has no specification
/// here under which lookups by a `String` key can be proved.
pub struct KeySet {
    entries: Vec<KeyEntry>,
}

impl View for KeySet {
    type V = KeyMap;

    closed spec fn view(&self) -> KeyMap {
        entries_map(self.entries@)
    }
}

/// The `kid` of a JWKS key as a string.
fn key_id_string(k: &JwkKey) -> (s: String)
    ensures
        s@ == key_id(*k),
{
    match &k.kid {
        Some(s) => s.clone(),
        None => "default".to_owned(),
    }
}

impl KeySet {
    #[verifier::type_invariant]
    spec fn distinct_kids(self) -> bool {
        kids_unique(self.entries@)
    }

    /// The empty key set.
    pub fn new() -> (s: KeySet)
        ensures
            s@ == KeyMap::empty(),
    {
        let s = KeySet { entries: Vec::new() };
        assert(s@ =~= KeyMap::empty());
        s
    }

    /// Whether the set holds no key.
    pub fn is_empty(&self) -> (b: bool)
        ensures
            b == (self@ == KeyMap::empty()),
    {
        proof {
            use_type_invariant(self);
        }
        if self.entries.len() == 0 {
            assert(self@ =~= KeyMap::empty());
            true
        } else {
            proof {
                lemma_entry_at(self.entries@, 0);
                assert(self@.dom().contains(self.entries@[0].kid@));
            }
            false
        }
    }

    /// The position of the entry with the `kid`, if there is one.
    fn position(&self, kid: &str) -> (r: Option<usize>)
        ensures
            r matches Some(i) ==> i < self.entries@.len() && self.entries@[i as int].kid@ == kid@,
            r is None ==> !has_kid(self.entries@, kid@),
    {
        let mut i: usize = 0;
        while i < self.entries.len()
            invariant
                i <= self.entries@.len(),
                forall|j: int| 0 <= j < i ==> (#[trigger] self.entries@[j].kid)@ != kid@,
            decreases self.entries@.len() - i,
        {
            if str_is(self.entries[i].kid.as_str(), kid) {
                return Some(i);
            }
            i = i + 1;
        }
        None
    }

    /// The key and algorithm filed under the `kid`, if any.
    pub fn get(&self, kid: &str) -> (r: Option<(DecodingKey, Algorithm)>)
        ensures
            r == (if self@.dom().contains(kid@) {
                Some(self@[kid@])
            } else {
                None
            }),
    {
        proof {
            use_type_invariant(self);
        }
        match self.position(kid) {
            Some(i) => {
                proof {
                    lemma_entry_at(self.entries@, i as int);
                }
                let entry = &self.entries[i];
                Some((copy_key(&entry.key), entry.alg))
            },
            None => None,
        }
    }

    /// Files the key and algorithm under the `kid`, replacing what was there.
    pub fn insert(&mut self, kid: String, key: DecodingKey, alg: Algorithm)
        ensures
            final(self)@ == old(self)@.insert(kid@, (key, alg)),
    {
        proof {
            use_type_invariant(&*self);
        }
        let ghost k = kid@;
        let ghost before = self.entries@;
        match self.position(kid.as_str()) {
            Some(i) => {
                let entry = KeyEntry { kid, key, alg };
                let mut entries: Vec<KeyEntry> = Vec::new();
                std::mem::swap(&mut entries, &mut self.entries);
                entries.set(i, entry);
                proof {
                    let after = entries@;
                    assert forall|a: int, b: int|
                        0 <= a < after.len() && 0 <= b < after.len() && (#[trigger] after[a].kid)@
                            == (#[trigger] after[b].kid)@ implies a == b by {
                        assert(before[a].kid@ == before[b].kid@);
                    }
                    assert forall|k2: Seq<char>| #[trigger] has_kid(after, k2) == has_kid(before, k2) by {
                        if has_kid(before, k2) {
                            let j = kid_index(before, k2);
                            assert(after[j].kid@ == k2);
                        }
                        if has_kid(after, k2) {
                            let j = kid_index(after, k2);
                            assert(before[j].kid@ == k2);
                        }
                    }
                    assert forall|k2: Seq<char>| k2 != k && has_kid(after, k2) implies
                        #[trigger] entries_map(after)[k2] == entries_map(before)[k2] by {
                        let j = kid_index(after, k2);
                        assert(before[j].kid@ == k2);
                        lemma_entry_at(before, j);
                        lemma_entry_at(after, j);
                    }
                    lemma_entry_at(after, i as int);
                    assert(entries_map(after) =~= entries_map(before).insert(k, (key, alg)));
                }
                self.entries = entries;
            },
            None => {
                let entry = KeyEntry { kid, key, alg };
                let mut entries: Vec<KeyEntry> = Vec::new();
                std::mem::swap(&mut entries, &mut self.entries);
                entries.push(entry);
                proof {
                    let after = entries@;
                    assert forall|a: int, b: int|
                        0 <= a < after.len() && 0 <= b < after.len() && (#[trigger] after[a].kid)@
                            == (#[trigger] after[b].kid)@ implies a == b by {
                        if a < before.len() && b < before.len() {
                            assert(before[a].kid@ == before[b].kid@);
                        } else if a < before.len() {
                            assert(before[a].kid@ == k);
                        } else if b < before.len() {
                            assert(before[b].kid@ == k);
                        }
                    }
                    assert forall|k2: Seq<char>| #[trigger] has_kid(after, k2) == (has_kid(before, k2) || k2 == k) by {
                        if has_kid(before, k2) {
                            let j = kid_index(before, k2);
                            assert(after[j].kid@ == k2);
                        }
                        if k2 == k {
                            assert(after[before.len() as int].kid@ == k2);
                        }
                        if has_kid(after, k2) && k2 != k {
                            let j = kid_index(after, k2);
                            assert(before[j].kid@ == k2);
                        }
                    }
                    assert forall|k2: Seq<char>| k2 != k && has_kid(after, k2) implies
                        #[trigger] entries_map(after)[k2] == entries_map(before)[k2] by {
                        let j = kid_index(after, k2);
                        assert(before[j].kid@ == k2);
                        lemma_entry_at(before, j);
                        lemma_entry_at(after, j);
                    }
                    lemma_entry_at(after, before.len() as int);
                    assert(entries_map(after) =~= entries_map(before).insert(k, (key, alg)));
                }
                self.entries = entries;
            },
        }
    }

    /// The key set of a JWKS document: every usable key under its `kid`,
    /// later keys replacing earlier ones of the same `kid`. A document
    /// without a usable key is refused.
    pub fn from_jwks(jwks: &JwksResponse) -> (r: Result<KeySet, JwtValidationError>)
        ensures
            r is Ok <==> jwks_key_map(jwks.keys@) != KeyMap::empty(),
            r matches Ok(set) ==> set@ == jwks_key_map(jwks.keys@),
            r matches Err(e) ==> e@ == (ErrorView::JwksFetchError {
                kind: JwksFetchErrorKind::NoSigningKeys,
                message: "JWKS response contained no usable signing keys"@,
            }),
    {
        let mut set = KeySet::new();
        let n = jwks.keys.len();
        assert(jwks.keys@.take(0) =~= Seq::<JwkKey>::empty());
        for i in 0..n
            invariant
                n == jwks.keys@.len(),
                set@ == jwks_key_map(jwks.keys@.take(i as int)),
        {
            let k = &jwks.keys[i];
            match usable_key(k) {
                Some((dk, a)) => {
                    let kid = key_id_string(k);
                    set.insert(kid, dk, a);
                },
                None => {},
            }
            assert(jwks.keys@.take(i + 1).drop_last() =~= jwks.keys@.take(i as int));
        }
        assert(jwks.keys@.take(n as int) =~= jwks.keys@);
        if set.is_empty() {
            Err(JwtValidationError::no_signing_keys())
        } else {
            Ok(set)
        }
    }
}

} // verus!

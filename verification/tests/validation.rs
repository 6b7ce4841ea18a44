use std::time::{SystemTime, UNIX_EPOCH};

use jsonwebtoken::{EncodingKey, Header};
use serde_json::Value;
use turul_jwt_validator::{
    Algorithm, JwkKey, JwksFetchErrorKind, JwksResponse, JwtValidationError, JwtValidator,
    KeySet, TimeSpan, ValidationStep,
};

use std::sync::OnceLock;

use base64::Engine;
use p256::elliptic_curve::sec1::ToEncodedPoint;
use p256::pkcs8::EncodePrivateKey;
use rand_chacha::rand_core::SeedableRng;
use rsa::pkcs1::EncodeRsaPrivateKey;
use rsa::traits::PublicKeyParts;

/// A signing key made at run time, with its public half in JWK form.
struct Fixture {
    private_der: Vec<u8>,
    public_a: String,
    public_b: String,
}

fn b64url(bytes: &[u8]) -> String {
    base64::engine::general_purpose::URL_SAFE_NO_PAD.encode(bytes)
}

fn rsa_fixture() -> &'static Fixture {
    static F: OnceLock<Fixture> = OnceLock::new();
    F.get_or_init(|| {
        let mut rng = rand_chacha::ChaCha20Rng::seed_from_u64(0x5eed);
        let key = rsa::RsaPrivateKey::new(&mut rng, 1024).unwrap();
        Fixture {
            private_der: key.to_pkcs1_der().unwrap().as_bytes().to_vec(),
            public_a: b64url(&key.n().to_bytes_be()),
            public_b: b64url(&key.e().to_bytes_be()),
        }
    })
}

fn ec_fixture() -> &'static Fixture {
    static F: OnceLock<Fixture> = OnceLock::new();
    F.get_or_init(|| {
        let mut rng = rand_chacha::ChaCha20Rng::seed_from_u64(0xec);
        let key = p256::SecretKey::random(&mut rng);
        let point = key.public_key().to_encoded_point(false);
        Fixture {
            private_der: key.to_pkcs8_der().unwrap().as_bytes().to_vec(),
            public_a: b64url(point.x().unwrap()),
            public_b: b64url(point.y().unwrap()),
        }
    })
}

fn obj(pairs: &[(&str, Value)]) -> Value {
    let mut m = serde_json::Map::new();
    for (k, v) in pairs {
        m.insert(k.to_string(), v.clone());
    }
    Value::Object(m)
}

fn now_epoch() -> u64 {
    SystemTime::now().duration_since(UNIX_EPOCH).unwrap().as_secs()
}

fn rsa_jwk(kid: Option<&str>, alg: Option<&str>) -> JwkKey {
    JwkKey {
        kty: "RSA".to_string(),
        kid: kid.map(|k| k.to_string()),
        alg: alg.map(|a| a.to_string()),
        n: Some(rsa_fixture().public_a.clone()),
        e: Some(rsa_fixture().public_b.clone()),
        crv: None,
        x: None,
        y: None,
    }
}

fn ec_jwk(kid: &str, crv: &str) -> JwkKey {
    JwkKey {
        kty: "EC".to_string(),
        kid: Some(kid.to_string()),
        alg: None,
        n: None,
        e: None,
        crv: Some(crv.to_string()),
        x: Some(ec_fixture().public_a.clone()),
        y: Some(ec_fixture().public_b.clone()),
    }
}

fn key_set(keys: Vec<JwkKey>) -> KeySet {
    KeySet::from_jwks(&JwksResponse { keys }).unwrap()
}

fn sign_rsa(alg: jsonwebtoken::Algorithm, kid: Option<&str>, claims: &serde_json::Value) -> String {
    let key = EncodingKey::from_rsa_der(&rsa_fixture().private_der);
    let mut header = Header::new(alg);
    header.kid = kid.map(|k| k.to_string());
    jsonwebtoken::encode(&header, claims, &key).unwrap()
}

fn sign_ec(kid: &str, claims: &serde_json::Value) -> String {
    let key = EncodingKey::from_ec_der(&ec_fixture().private_der);
    let mut header = Header::new(jsonwebtoken::Algorithm::ES256);
    header.kid = Some(kid.to_string());
    jsonwebtoken::encode(&header, claims, &key).unwrap()
}

fn secs(n: u64) -> TimeSpan {
    TimeSpan::from_secs(n)
}

/// Runs both steps, with `fetched` standing for what the JWKS endpoint gives.
fn validate_fetching(
    v: &mut JwtValidator,
    token: &str,
    now: TimeSpan,
    fetched: impl FnOnce() -> Result<KeySet, JwtValidationError>,
) -> (bool, Result<serde_json::Value, JwtValidationError>) {
    match v.validate(token, now) {
        ValidationStep::Done(r) => (false, r),
        ValidationStep::FetchKeys(p) => (true, v.resume_validation(p, fetched(), now)),
    }
}

fn down() -> Result<KeySet, JwtValidationError> {
    Err(JwtValidationError::JwksFetchError {
        kind: JwksFetchErrorKind::HttpStatus(503),
        message: "JWKS endpoint returned HTTP 503".to_string(),
    })
}

fn good_claims(sub: &str) -> serde_json::Value {
    obj(&[("sub", Value::from(sub)), ("aud", Value::from("test-audience")), ("exp", Value::from(now_epoch() + 3600))])
}

#[test]
fn valid_token_returns_claims() {
    let mut v = JwtValidator::new("https://issuer/jwks.json", "test-audience")
        .with_issuer("test-issuer")
        .with_refresh_interval(TimeSpan::from_millis(100));
    let claims = obj(&[("sub", Value::from("user-123")), ("iss", Value::from("test-issuer")), ("aud", Value::from("test-audience")), ("exp", Value::from(now_epoch() + 3600)), ("iat", Value::from(now_epoch()))]);
    let token = sign_rsa(jsonwebtoken::Algorithm::RS256, Some("key-1"), &claims);
    let (fetched, r) =
        validate_fetching(&mut v, &token, secs(10), || Ok(key_set(vec![rsa_jwk(Some("key-1"), Some("RS256"))])));
    assert!(fetched);
    let claims = r.unwrap();
    assert_eq!(claims["sub"], "user-123");
    assert_eq!(claims["iss"], "test-issuer");
}

#[test]
fn fresh_cache_hit_makes_no_fetch() {
    let mut v = JwtValidator::new("https://issuer/jwks.json", "test-audience")
        .with_max_age(secs(60));
    let token = sign_rsa(jsonwebtoken::Algorithm::RS256, Some("cached-key"), &good_claims("u"));
    let keys = || Ok(key_set(vec![rsa_jwk(Some("cached-key"), Some("RS256"))]));
    let (fetched, r) = validate_fetching(&mut v, &token, secs(10), keys);
    assert!(fetched);
    assert!(r.is_ok());
    let (fetched, r) = validate_fetching(&mut v, &token, secs(11), || panic!("no fetch expected"));
    assert!(!fetched);
    assert_eq!(r.unwrap()["sub"], "u");
}

#[test]
fn expired_token_rejected() {
    let mut v = JwtValidator::new("https://issuer/jwks.json", "test-audience");
    let claims = obj(&[("sub", Value::from("user-expired")), ("aud", Value::from("test-audience")), ("exp", Value::from(now_epoch() - 3600)), ("iat", Value::from(now_epoch() - 7200))]);
    let token = sign_rsa(jsonwebtoken::Algorithm::RS256, Some("key-2"), &claims);
    let (_, r) = validate_fetching(&mut v, &token, secs(1), || Ok(key_set(vec![rsa_jwk(Some("key-2"), None)])));
    assert!(matches!(r, Err(JwtValidationError::TokenExpired)), "{r:?}");
}

#[test]
fn wrong_audience_rejected() {
    let mut v = JwtValidator::new("https://issuer/jwks.json", "expected-audience");
    let claims = obj(&[("sub", Value::from("user")), ("aud", Value::from("wrong-audience")), ("exp", Value::from(now_epoch() + 3600))]);
    let token = sign_rsa(jsonwebtoken::Algorithm::RS256, Some("key-3"), &claims);
    let (_, r) = validate_fetching(&mut v, &token, secs(1), || Ok(key_set(vec![rsa_jwk(Some("key-3"), None)])));
    assert!(matches!(r, Err(JwtValidationError::InvalidAudience)), "{r:?}");
}

#[test]
fn wrong_issuer_rejected() {
    let mut v = JwtValidator::new("https://issuer/jwks.json", "test-audience")
        .with_issuer("expected-issuer");
    let claims = obj(&[("sub", Value::from("user")), ("iss", Value::from("wrong-issuer")), ("aud", Value::from("test-audience")), ("exp", Value::from(now_epoch() + 3600))]);
    let token = sign_rsa(jsonwebtoken::Algorithm::RS256, Some("key-4"), &claims);
    let (_, r) = validate_fetching(&mut v, &token, secs(1), || Ok(key_set(vec![rsa_jwk(Some("key-4"), None)])));
    assert!(matches!(r, Err(JwtValidationError::InvalidIssuer)), "{r:?}");
}

#[test]
fn tampered_signature_is_invalid_token() {
    let mut v = JwtValidator::new("https://issuer/jwks.json", "test-audience");
    let token = sign_rsa(jsonwebtoken::Algorithm::RS256, Some("k"), &good_claims("u"));
    let mut tampered = token[..token.len() - 4].to_string();
    tampered.push_str("AAAA");
    let (_, r) = validate_fetching(&mut v, &tampered, secs(1), || Ok(key_set(vec![rsa_jwk(Some("k"), None)])));
    assert!(matches!(r, Err(JwtValidationError::InvalidToken(_))), "{r:?}");
}

#[test]
fn kid_miss_triggers_refetch() {
    let mut v = JwtValidator::new("https://issuer/jwks.json", "test-audience")
        .with_refresh_interval(TimeSpan::from_millis(10));
    let old = sign_rsa(jsonwebtoken::Algorithm::RS256, Some("key-old"), &good_claims("a"));
    let (_, r) = validate_fetching(&mut v, &old, secs(1), || Ok(key_set(vec![rsa_jwk(Some("key-old"), None)])));
    assert!(r.is_ok());
    let new = sign_rsa(jsonwebtoken::Algorithm::RS256, Some("key-new"), &good_claims("user-refetch"));
    let (fetched, r) = validate_fetching(&mut v, &new, secs(2), || {
        Ok(key_set(vec![rsa_jwk(Some("key-new"), None)]))
    });
    assert!(fetched);
    assert_eq!(r.unwrap()["sub"], "user-refetch");
}

#[test]
fn kid_miss_within_refresh_interval_is_key_not_found() {
    let mut v = JwtValidator::new("https://issuer/jwks.json", "test-audience");
    let old = sign_rsa(jsonwebtoken::Algorithm::RS256, Some("key-old"), &good_claims("a"));
    let (_, r) = validate_fetching(&mut v, &old, secs(1), || Ok(key_set(vec![rsa_jwk(Some("key-old"), None)])));
    assert!(r.is_ok());
    let new = sign_rsa(jsonwebtoken::Algorithm::RS256, Some("key-new"), &good_claims("b"));
    let (fetched, r) = validate_fetching(&mut v, &new, secs(30), || panic!("rate-limited"));
    assert!(!fetched);
    match r {
        Err(JwtValidationError::KeyNotFound(kid)) => assert_eq!(kid, "key-new"),
        other => panic!("unexpected {other:?}"),
    }
}

#[test]
fn scope_claim_extracted() {
    let mut v = JwtValidator::new("https://issuer/jwks.json", "test-audience");
    let claims = obj(&[("sub", Value::from("user-scoped")), ("aud", Value::from("test-audience")), ("exp", Value::from(now_epoch() + 3600)), ("scope", Value::from("a2a:read a2a:write"))]);
    let token = sign_rsa(jsonwebtoken::Algorithm::RS256, Some("key-scope"), &claims);
    let (_, r) = validate_fetching(&mut v, &token, secs(1), || Ok(key_set(vec![rsa_jwk(Some("key-scope"), None)])));
    assert_eq!(r.unwrap()["scope"], "a2a:read a2a:write");
}

#[test]
fn extra_claims_captured() {
    let mut v = JwtValidator::new("https://issuer/jwks.json", "test-audience");
    let claims = obj(&[("sub", Value::from("user-extra")), ("aud", Value::from("test-audience")), ("exp", Value::from(now_epoch() + 3600)), ("custom_field", Value::from("custom_value")), ("role", Value::from("admin"))]);
    let token = sign_rsa(jsonwebtoken::Algorithm::RS256, Some("key-extra"), &claims);
    let (_, r) = validate_fetching(&mut v, &token, secs(1), || Ok(key_set(vec![rsa_jwk(Some("key-extra"), None)])));
    let claims = r.unwrap();
    assert_eq!(claims["custom_field"], "custom_value");
    assert_eq!(claims["role"], "admin");
}

#[test]
fn hs256_token_rejected_under_default_allowlist() {
    let mut v = JwtValidator::new("https://issuer/jwks.json", "test-audience");
    let mut header = Header::new(jsonwebtoken::Algorithm::HS256);
    header.kid = Some("k".to_string());
    let token = jsonwebtoken::encode(
        &header,
        &good_claims("u"),
        &EncodingKey::from_secret(b"public-key-as-secret"),
    )
    .unwrap();
    let (fetched, r) = validate_fetching(&mut v, &token, secs(1), || panic!("no fetch expected"));
    assert!(!fetched);
    match r {
        Err(JwtValidationError::UnsupportedAlgorithm(name)) => assert_eq!(name, "HS256"),
        other => panic!("unexpected {other:?}"),
    }
}

#[test]
fn token_algorithm_must_match_jwks_algorithm() {
    // The JWKS advertises RS384 for the key, the token claims RS256.
    let mut v = JwtValidator::new("https://issuer/jwks.json", "test-audience")
        .with_algorithms(vec![Algorithm::RS256, Algorithm::RS384]);
    let token = sign_rsa(jsonwebtoken::Algorithm::RS256, Some("k"), &good_claims("u"));
    let (_, r) = validate_fetching(&mut v, &token, secs(1), || Ok(key_set(vec![rsa_jwk(Some("k"), Some("RS384"))])));
    match r {
        Err(JwtValidationError::UnsupportedAlgorithm(text)) => {
            assert_eq!(text, "Token uses RS256 but JWKS key 'k' advertises RS384")
        }
        other => panic!("unexpected {other:?}"),
    }
}

#[test]
fn opt_in_rs384_token_accepted() {
    let mut v = JwtValidator::new("https://issuer/jwks.json", "test-audience")
        .with_algorithms(vec![Algorithm::RS384]);
    let token = sign_rsa(jsonwebtoken::Algorithm::RS384, Some("k"), &good_claims("u384"));
    let (_, r) = validate_fetching(&mut v, &token, secs(1), || Ok(key_set(vec![rsa_jwk(Some("k"), Some("RS384"))])));
    assert_eq!(r.unwrap()["sub"], "u384");
}

#[test]
fn token_without_kid_uses_default_key() {
    let mut v = JwtValidator::new("https://issuer/jwks.json", "test-audience");
    let token = sign_rsa(jsonwebtoken::Algorithm::RS256, None, &good_claims("nokid"));
    let (_, r) = validate_fetching(&mut v, &token, secs(1), || Ok(key_set(vec![rsa_jwk(None, None)])));
    assert_eq!(r.unwrap()["sub"], "nokid");
}

#[test]
fn malformed_token_is_decoding_error() {
    let v = JwtValidator::new("https://issuer/jwks.json", "test-audience");
    match v.validate("not-a-jwt", secs(1)) {
        ValidationStep::Done(Err(JwtValidationError::DecodingError(text))) => {
            assert!(text.starts_with("Invalid JWT header: "), "{text}")
        }
        _ => panic!("expected a decoding error"),
    }
}

#[test]
fn es256_happy_path() {
    let mut v = JwtValidator::new("https://issuer/jwks.json", "test-audience");
    let token = sign_ec("ec-key", &good_claims("ec-user"));
    let (_, r) = validate_fetching(&mut v, &token, secs(1), || Ok(key_set(vec![ec_jwk("ec-key", "P-256")])));
    assert_eq!(r.unwrap()["sub"], "ec-user");
}

#[test]
fn stale_while_revalidate_swallows_fetch_error_within_window() {
    let mut v = JwtValidator::new("https://issuer/jwks.json", "test-audience")
        .with_refresh_interval(TimeSpan::from_millis(10))
        .with_stale_window(secs(60));
    let token = sign_rsa(jsonwebtoken::Algorithm::RS256, Some("cached-key"), &good_claims("u1"));
    let (_, r) = validate_fetching(&mut v, &token, secs(100), || Ok(key_set(vec![rsa_jwk(Some("cached-key"), None)])));
    assert!(r.is_ok());
    let unknown = sign_rsa(jsonwebtoken::Algorithm::RS256, Some("unknown-key"), &good_claims("u2"));
    let (fetched, r) = validate_fetching(&mut v, &unknown, secs(101), down);
    assert!(fetched);
    assert!(matches!(r, Err(JwtValidationError::KeyNotFound(_))), "{r:?}");
    // The cached key is still served after the failed refresh.
    let (_, r) = validate_fetching(&mut v, &token, secs(102), || panic!("cache hit"));
    assert!(r.is_ok());
}

#[test]
fn stale_window_default_zero_does_not_swallow_fetch_errors() {
    let mut v = JwtValidator::new("https://issuer/jwks.json", "test-audience")
        .with_refresh_interval(TimeSpan::from_millis(10));
    let token = sign_rsa(jsonwebtoken::Algorithm::RS256, Some("cached-key"), &good_claims("u1"));
    let (_, r) = validate_fetching(&mut v, &token, secs(100), || Ok(key_set(vec![rsa_jwk(Some("cached-key"), None)])));
    assert!(r.is_ok());
    let unknown = sign_rsa(jsonwebtoken::Algorithm::RS256, Some("unknown-key"), &good_claims("u2"));
    let (fetched, r) = validate_fetching(&mut v, &unknown, secs(101), down);
    assert!(fetched);
    match r {
        Err(JwtValidationError::JwksFetchError { kind, .. }) => {
            assert_eq!(kind, JwksFetchErrorKind::HttpStatus(503))
        }
        other => panic!("unexpected {other:?}"),
    }
}

#[test]
fn first_fetch_failure_propagates() {
    let mut v = JwtValidator::new("https://issuer/jwks.json", "test-audience")
        .with_stale_window(secs(3600));
    let token = sign_rsa(jsonwebtoken::Algorithm::RS256, Some("any-kid"), &good_claims("u"));
    let (fetched, r) = validate_fetching(&mut v, &token, secs(1), down);
    assert!(fetched);
    assert!(matches!(r, Err(JwtValidationError::JwksFetchError { .. })), "{r:?}");
}

#[test]
fn max_age_expired_cache_hit_triggers_exactly_one_refresh() {
    let mut v = JwtValidator::new("https://issuer/jwks.json", "test-audience")
        .with_refresh_interval(TimeSpan::from_millis(1))
        .with_max_age(TimeSpan::from_millis(20));
    let token = sign_rsa(jsonwebtoken::Algorithm::RS256, Some("cached-key"), &good_claims("u"));
    let keys = || Ok(key_set(vec![rsa_jwk(Some("cached-key"), None)]));
    let (fetched, r) = validate_fetching(&mut v, &token, TimeSpan::from_millis(1000), keys);
    assert!(fetched && r.is_ok());
    let (fetched, r) = validate_fetching(&mut v, &token, TimeSpan::from_millis(1030), keys);
    assert!(fetched);
    assert!(r.is_ok());
    let (fetched, r) = validate_fetching(&mut v, &token, TimeSpan::from_millis(1035), || panic!("fresh"));
    assert!(!fetched);
    assert!(r.is_ok());
}

#[test]
fn max_age_expired_cache_hit_rate_limited_by_refresh_interval_serves_stale_key() {
    let mut v = JwtValidator::new("https://issuer/jwks.json", "test-audience")
        .with_refresh_interval(secs(60))
        .with_max_age(TimeSpan::from_millis(20));
    let token = sign_rsa(jsonwebtoken::Algorithm::RS256, Some("cached-key"), &good_claims("u"));
    let (_, r) = validate_fetching(&mut v, &token, TimeSpan::from_millis(1000), || {
        Ok(key_set(vec![rsa_jwk(Some("cached-key"), None)]))
    });
    assert!(r.is_ok());
    let (fetched, r) = validate_fetching(&mut v, &token, TimeSpan::from_millis(1030), || panic!("rate-limited"));
    assert!(!fetched);
    assert_eq!(r.unwrap()["sub"], "u");
}

#[test]
fn absent_iss_and_aud_claims_are_not_required() {
    let mut v = JwtValidator::new("https://issuer/jwks.json", "test-audience")
        .with_issuer("expected-issuer");
    let claims = obj(&[("sub", Value::from("bare")), ("exp", Value::from(now_epoch() + 3600))]);
    let token = sign_rsa(jsonwebtoken::Algorithm::RS256, Some("k"), &claims);
    let (_, r) = validate_fetching(&mut v, &token, secs(1), || Ok(key_set(vec![rsa_jwk(Some("k"), None)])));
    assert_eq!(r.unwrap()["sub"], "bare");
}

#[test]
fn token_without_exp_is_invalid() {
    let mut v = JwtValidator::new("https://issuer/jwks.json", "test-audience");
    let claims = obj(&[("sub", Value::from("no-exp")), ("aud", Value::from("test-audience"))]);
    let token = sign_rsa(jsonwebtoken::Algorithm::RS256, Some("k"), &claims);
    let (_, r) = validate_fetching(&mut v, &token, secs(1), || Ok(key_set(vec![rsa_jwk(Some("k"), None)])));
    assert!(matches!(r, Err(JwtValidationError::InvalidToken(_))), "{r:?}");
}

#[test]
fn audience_in_an_array_is_accepted() {
    let mut v = JwtValidator::new("https://issuer/jwks.json", "test-audience");
    let aud = Value::from(vec![Value::from("other"), Value::from("test-audience")]);
    let claims = obj(&[("sub", Value::from("multi")), ("aud", aud), ("exp", Value::from(now_epoch() + 3600))]);
    let token = sign_rsa(jsonwebtoken::Algorithm::RS256, Some("k"), &claims);
    let (_, r) = validate_fetching(&mut v, &token, secs(1), || Ok(key_set(vec![rsa_jwk(Some("k"), None)])));
    assert_eq!(r.unwrap()["sub"], "multi");
}

//! Generic JWT validator with JWKS caching and kid-miss refresh.
//!
//! Supports RS256/RS384/RS512 and ES256/ES384 signature verification via
//! `jsonwebtoken`. The crate holds the decisions of a validation: the JWKS
//! key set, the cache with its refresh rate limit, maximum age and stale
//! window, the retry schedule with its timeout ceiling, and the checks on
//! each token. Fetching the JWKS over the network is left to the caller,
//! which [`JwtValidator::validate`] asks for when it is needed.

pub mod algorithm;
pub mod backend;
pub mod cache;
pub mod error;
pub mod jwks;
pub mod laws;
pub mod retry;
pub mod time;
pub mod validator;

pub use algorithm::Algorithm;
pub use backend::{ClaimChecks, DecodeFailure};
pub use cache::JwksCache;
pub use error::{check_http_status, JwksFetchErrorKind, JwtValidationError};
pub use jwks::{JwkKey, JwksResponse, KeySet};
pub use retry::{RetryConfig, RetryLoop, RetryStep};
pub use time::TimeSpan;
pub use validator::{FetchPlan, JwtValidator, PendingValidation, ValidationStep};

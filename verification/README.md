# turul_jwt_validator

JWT validation against a JWKS endpoint, with the decisions proved in Verus.

- `src/` — the verified library: the JWKS key set (`jwks`), the cache and
  its refresh policy (`cache`), retry scheduling and the timeout ceiling
  (`retry`), the validator and its two validation steps (`validator`),
  error texts (`error`), spans of time (`time`), and the calls into
  `jsonwebtoken` behind their contracts (`backend`). `laws` holds the
  properties that span several steps.
- `app/` — the async front end: HTTP fetch of the JWKS (reqwest), retry
  sleeps and the overall timeout (tokio), the lock around the validator,
  the clock, and the serde forms of the claims and of the JWKS document.
- `tests/` — tests of the library on concrete tokens and key sets.

`jsonwebtoken` is built with its pure-Rust `rust_crypto` backend rather
than `aws_lc_rs`: both verify the same algorithms, and the pure-Rust one
builds without a C toolchain for AWS-LC.

[package]
name = "turul_jwt_validator"
version = "0.2.1"
edition = "2021"
publish = false

[dependencies]
jsonwebtoken = { version = "=11.1.0", features = ["rust_crypto"] }
serde = { version = "=1.0.229", features = ["derive"] }
serde_json = "=1.0.154"
thiserror = "=2.0.21"
tokio = { version = "=1.54.1", features = ["sync", "time", "macros", "rt-multi-thread"] }
reqwest = { version = "=0.12.28", default-features = false, features = ["json", "rustls-tls"] }
tracing = "=0.1.44"

[dev-dependencies]
rsa = "=0.9.10"
p256 = "=0.13.2"
rand_chacha = "=0.3.1"
base64 = "=0.22.1"

[package]
name = "oidc-stack"
version = "0.1.0"
edition = "2021"
publish = false

[dependencies]
arc-swap = "=1.9.3"
async-trait = "0.1"
axum = "=0.8.9"
axum-oidc = "=1.0.0-dev-2"
chrono = { version = "=0.4.45", default-features = false, features = ["now"] }
dropshot = { version = "=0.18.0", default-features = false }
hex = "=0.4.3"
hmac = "=0.13.0"
jsonwebtoken = { version = "=10.4.0", features = ["aws_lc_rs"] }
jwks = { version = "=0.5.3", default-features = false, features = ["aws_lc_rs"] }
reqwest = { version = "0.13", default-features = false, features = ["json"] }
schemars = "0.8"
secrecy = { version = "=0.10.3", features = ["serde"] }
serde = { version = "1", features = ["derive"] }
serde_json = { version = "1", features = ["raw_value"] }
sha2 = "=0.11.1"
subtle = "=2.6.1"
thiserror = "2"
time = "0.3"
tokio = { version = "1", features = ["rt", "time"] }
tower = "0.5"
tower-http = { version = "=0.7.1", features = ["csrf"] }
tower-sessions = { version = "=0.15.0", features = ["signed"] }
tracing = "0.1"
url = { version = "=2.5.8", features = ["serde"] }

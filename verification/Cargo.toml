[package]
name = "hsm_signer"
version = "0.1.0"
edition = "2021"
publish = false

[dependencies]
anyhow = "1"
axum = "0.6"
dotenvy = "0.15"
hex = "0.4"
hkdf = "0.12"
p256 = { version = "0.13", features = ["ecdh", "ecdsa"] }
rand_core = { version = "0.6", features = ["getrandom"] }
redis = "0.23"
rlp = "0.5"
serde = { version = "1", features = ["derive"] }
serde_json = "1"
sha2 = "0.10"
tokio = { version = "1", features = ["macros", "rt-multi-thread"] }
tower-http = { version = "0.4", features = ["cors"] }
tracing = "0.1"
tracing-subscriber = "0.3"
web3 = { version = "0.19", default-features = false, features = ["signing"] }

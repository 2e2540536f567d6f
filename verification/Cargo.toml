[package]
name = "poly_5min_bot"
version = "0.1.0"
edition = "2021"
publish = false

[dependencies]
aes-gcm = "0.10"
alloy = { version = "1", default-features = false, features = ["std", "signers", "signer-local"] }
anyhow = "1"
base64 = "0.22"
chrono = "0.4"
dashmap = "6.1"
dotenvy = "0.15"
futures = "0.3"
rust_decimal = { version = "1", default-features = false, features = ["std"] }
serde_json = "1"
sha2 = "0.10"
tokio = { version = "1", features = ["rt-multi-thread", "macros", "time"] }
tracing = "0.1"
uuid = { version = "1", features = ["v4"] }

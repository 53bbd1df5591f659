[package]
name = "blockchain_academica"
version = "0.1.0"
edition = "2021"
publish = false

[dependencies]
async-trait = "0.1"
base64 = "0.21"
chrono = { version = "0.4", features = ["serde"] }
futures = "0.3"
libp2p = { version = "*", default-features = false, features = ["tcp", "noise", "yamux", "gossipsub", "request-response", "tokio", "macros"] }
rsa = { version = "0.9", features = ["sha2", "pem"] }
serde = { version = "1", features = ["derive"] }
serde_json = "1"
sha2 = "0.10"
signature = "2"
thiserror = "1"
tokio = { version = "1", features = ["full"] }
toml = "0.8"

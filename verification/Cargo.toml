[package]
name = "bridge_core"
version = "0.1.0"
edition = "2021"
publish = false

[dependencies]
bs58 = "=0.5.1"
sha3 = "=0.12.0"
libsecp256k1 = "=0.7.2"
base64 = "=0.23.1"
serde = "=1.0.229"
serde_json = "=1.0.151"
serde-big-array = "=0.5.1"
serde_with = "=3.24.0"
near-sdk = { version = "=5.29.1", features = ["unit-testing"] }
near-contract-standards = "=5.29.1"

[dev-dependencies]
prefix-hex = "=0.7.1"
num-bigint = "=0.5.1"

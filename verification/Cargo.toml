[package]
name = "transaction"
version = "0.1.0"
edition = "2021"
publish = false

[dependencies]
sha2 = "=0.11.1"
bs58 = "=0.5.1"
serde = { version = "=1.0.229", features = ["derive"] }
serde_json = "=1.0.154"
eyre = "=0.6.14"
log = "=0.4.35"
marine-rs-sdk = { version = "=0.14.0", features = ["logger"] }

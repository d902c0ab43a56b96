[package]
name = "stellovault"
version = "0.1.0"
edition = "2021"
publish = false

[dependencies]
ed25519-dalek = "=2.2.0"
hex = "=0.4.3"
serde_json = "1"
soroban-sdk = { version = "=29.0.1", features = ["testutils", "hazmat-address"] }

[package]
name = "stellar_lend"
version = "0.1.0"
edition = "2021"
publish = false

[dependencies]
anyhow = "1"
bincode = "1"
ed25519-dalek = "1"
serde = { version = "1", features = ["derive"] }
soroban-sdk = "23"

[dev-dependencies]
rand = "0.7"

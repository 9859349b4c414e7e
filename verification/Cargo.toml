[package]
name = "cargo_trust"
version = "0.1.0"
edition = "2021"
publish = false

[dependencies]
crypto-hash = "=0.3.4"
digest = "=0.7.6"
ed25519-dalek = "=1.0.1"
generic-array = "=0.9.1"
pbp = "=0.3.1"
serde = { version = "=1.0.229", features = ["derive"] }
toml = "=0.5.11"
typenum = "=1.20.1"

[dev-dependencies]
sha2 = "=0.7.1"

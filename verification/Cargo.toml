[package]
name = "dverse_identity"
version = "0.1.0"
edition = "2021"
publish = false

[dependencies]
ed25519-dalek = { version = "2", features = ["rand_core"] }
multibase = "0.9"
rand_core = { version = "0.6", features = ["getrandom"] }
serde = { version = "1", features = ["derive"] }

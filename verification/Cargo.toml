[package]
name = "solcore"
version = "0.1.0"
edition = "2021"
publish = false

[dependencies]
bs58 = "0.5"
base64 = "0.13"
ed25519-dalek = { version = "2", features = ["rand_core"] }
rand_core = { version = "0.6", features = ["getrandom"] }
axum = "0.7"
tokio = { version = "1", features = ["macros", "rt-multi-thread", "net"] }
serde = { version = "1", features = ["derive"] }

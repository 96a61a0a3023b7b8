[package]
name = "hpos-config-core"
version = "0.1.0"
edition = "2021"
publish = false

[dependencies]
base64 = "=0.13.1"
ed25519-dalek = "=1.0.1"
rand = "=0.7.3"
rust-argon2 = "=0.8.3"
serde = { version = "=1.0.229", features = ["derive"] }
serde_json = "=1.0.154"
wasm-bindgen = { version = "=0.2.129", features = ["serde-serialize"] }

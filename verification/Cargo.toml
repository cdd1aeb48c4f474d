[package]
name = "argon2_bridge"
version = "0.1.0"
edition = "2021"
publish = false

[dependencies]
rust-argon2 = "*"
serde = { version = "*", features = ["derive"] }
serde_json = "*"
wasm-bindgen = "*"
serde-wasm-bindgen = "*"

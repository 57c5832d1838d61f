[package]
name = "image_placeholder"
version = "0.1.0"
edition = "2021"
publish = false

[dependencies]
image = "*"
thumbhash = "*"
base64 = "*"
xxhash-rust = { version = "*", features = ["const_xxh3"] }
serde = { version = "*", features = ["derive"] }
wasm-bindgen = "*"
serde-wasm-bindgen = "*"

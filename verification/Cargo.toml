[package]
name = "sidereon_wasm"
version = "0.1.0"
edition = "2021"
publish = false

[dependencies]
sidereon-core = "*"
sidereon = "*"
serde = { version = "1", features = ["derive"] }
serde_json = "1"
serde-wasm-bindgen = "*"
wasm-bindgen = "*"
js-sys = "*"

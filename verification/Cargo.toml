[package]
name = "capi_wasm"
version = "0.1.0"
edition = "2021"
publish = false

[dependencies]
algonaut = { version = "*", default-features = false }
rust_decimal = "1"
chrono = "0.4"
data-encoding = "2"
serde = { version = "1", features = ["derive"] }
serde_json = "1"
anyhow = "1"
log = "0.4"
wasm-bindgen = "0.2"
serde-wasm-bindgen = "*"
rmp-serde = "*"
tsify = "*"

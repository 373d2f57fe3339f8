[package]
name = "device-envoy-cyd-starter"
version = "0.1.0"
edition = "2021"
publish = false

[dependencies]
embedded-graphics = "0.8"
device-envoy-core = "*"
embassy-time = "*"
serde = { version = "1", default-features = false, features = ["derive"] }
derive_more = { version = "*", features = ["from"] }
wasm-bindgen = "*"
log = "0.4"

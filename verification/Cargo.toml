[package]
name = "vless_relay"
version = "0.1.0"
edition = "2021"
publish = false

[dependencies]
anyhow = "*"
base64 = "=0.23.1"
futures = "*"
tokio = { version = "*", default-features = false, features = ["io-util"] }
url = "*"
uuid = "*"
wasm-bindgen = "*"
wasm-bindgen-futures = "*"
worker = { version = "=0.8.7", features = ["http"] }

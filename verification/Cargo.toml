[package]
name = "haircut_core"
version = "0.1.0"
edition = "2021"
publish = false

[dependencies]
rand = "0.8"
bytes = "1"
tokio = { version = "1", features = ["full"] }
hotaru = "*"
wgpu = "*"
wasm-bindgen = "0.2"
futures-channel = "0.3"

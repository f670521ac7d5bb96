[package]
name = "flowrs_img"
version = "0.1.0"
edition = "2021"
publish = false

[dependencies]
anyhow = "1"
flowrs = "*"
image = "0.24"
ndarray = "0.15"
nshare = "0.9"
opencv = "*"
serde = { version = "1", features = ["derive"] }
wasm-bindgen = "0.2"

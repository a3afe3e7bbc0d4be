[package]
name = "konjingjing"
version = "0.1.0"
edition = "2021"
publish = false

[dependencies]
napi = "*"
napi-derive = "*"
pyo3 = "*"
serde = { version = "*", features = ["derive"] }
tsify-next = "*"
wasm-bindgen = "=0.2.92"

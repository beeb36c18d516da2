[package]
name = "pendulum_rs"
version = "0.1.0"
edition = "2021"
publish = false

[dependencies]
ruvector-core = { version = "*", default-features = false }
ruvector-gnn = { version = "*", default-features = false }
serde_json = "1"
wasm-bindgen = "0.2"
console_error_panic_hook = "0.1"

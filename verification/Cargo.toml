[package]
name = "dive_soft"
version = "0.1.0"
edition = "2021"
publish = false

[dependencies]
serde = { version = "=1.0.229", features = ["derive"] }
serde-wasm-bindgen = "=0.6.5"
wasm-bindgen = "=0.2.130"
wasm-bindgen-futures = "=0.4.80"
leptos = { version = "=0.8.23", features = ["csr"] }
console_error_panic_hook = "=0.1.7"
serialport = { version = "=4.10.1", default-features = false }
lazy_static = "=1.5.1"
log = "=0.4.35"

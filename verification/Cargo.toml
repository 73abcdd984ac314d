[package]
name = "webauthn_verify"
version = "0.1.0"
edition = "2021"
publish = false

[dependencies]
base64 = "0.22"
console_error_panic_hook = "0.1"
log = "0.4"
p256 = "0.13"
serde = { version = "1", features = ["derive"] }
serde-wasm-bindgen = "0.6"
serde_json = "1"
sha2 = "0.10"
wasm-bindgen = "0.2"
wasm-log = "*"

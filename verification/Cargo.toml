[package]
name = "emulator"
version = "0.1.0"
edition = "2021"
publish = false

[dependencies]
bincode = "1"
serde = { version = "1", features = ["derive"] }
ctrlc = "3"
signal-hook = "0.3"
wasm-bindgen = "0.2"
console_error_panic_hook = "0.1"

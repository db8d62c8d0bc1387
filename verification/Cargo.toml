[package]
name = "coredump_service"
version = "0.1.0"
edition = "2021"
publish = false

[dependencies]
uuid = { version = "*", features = ["v4"] }
serde_json = "*"
serde = { version = "*", features = ["derive"] }
wasm-parser = "*"
coredump-to-stack = "*"
worker = "*"
console_error_panic_hook = "*"

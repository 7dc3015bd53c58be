[package]
name = "transfer_ledger"
version = "0.1.0"
edition = "2021"
publish = false

[dependencies]
cosmos-sdk-proto = { version = "*", default-features = false, features = ["std"] }
prost = "*"
serde = { version = "*", features = ["derive"] }
serde-json-wasm = "*"

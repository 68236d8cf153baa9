[package]
name = "merkle_validation"
version = "0.1.0"
edition = "2021"
publish = false

[dependencies]
blake2 = "*"
hex = "*"
serde = { version = "*", features = ["derive"] }
serde_json = "*"
jsonrpc-lite = "*"

[package]
name = "firebolt_gateway"
version = "0.1.0"
edition = "2021"
publish = false

[dependencies]
serde = { version = "*", features = ["derive"] }
serde_json = "*"
chrono = "*"
rand = "*"
jsonrpsee = { version = "*", default-features = false, features = ["server"] }

[package]
name = "steam_webapi_rust_sdk"
version = "0.1.0"
edition = "2021"
publish = false

[dependencies]
minreq = { version = "2", features = ["https"] }
serde = { version = "1", features = ["derive"] }
serde_json = "1"
url-build-parse = "*"

[package]
name = "jonline"
version = "0.1.0"
edition = "2021"
publish = false

[dependencies]
bs58 = "0.5"
futures = "0.3"
lazy_static = "1"
log = "0.4"
rocket = "0.5"
rocket_async_compression = "*"
rocket-cache-response = "*"
serde = { version = "1", features = ["derive"] }
serde_json = "1"
tokio = "1"
tonic = { version = "*", default-features = false }

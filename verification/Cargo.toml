[package]
name = "api_error"
version = "0.1.0"
edition = "2021"
publish = false

[dependencies]
anyhow = "1"
eyre = "0.6"
tracing = { version = "0.1", default-features = false, features = ["std"] }

[dev-dependencies]
serde_json = "1"

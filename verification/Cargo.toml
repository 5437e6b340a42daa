[package]
name = "rest_client"
version = "0.1.0"
edition = "2021"
publish = false

[dependencies]
serde = { version = "=1.0.229", features = ["derive"] }
serde_json = "=1.0.151"
reqwest = { version = "=0.13.5", default-features = false }
cdumay_error = "=0.3.0"
cdumay_http_client = "=0.3.2"

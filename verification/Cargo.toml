[package]
name = "rust_wistia"
version = "0.1.0"
edition = "2021"
publish = false

[dependencies]
serde = "=1.0.229"
serde_json = "=1.0.151"
http = "=0.2.12"
hyper = { version = "=0.14.32", features = ["client", "http1", "tcp"] }
hyper-multipart-rfc7578 = "=0.8.0"

[dev-dependencies]
serde_urlencoded = "=0.7.1"

[package]
name = "s3_gateway"
version = "0.1.0"
edition = "2021"
publish = false

[dependencies]
aws-config = "=1.13.0"
aws-sdk-s3 = { version = "=1.155.0", default-features = false, features = ["default-https-client", "http-1x", "rt-tokio", "rustls"] }
serde = "=1.0.229"

[dev-dependencies]
serde_json = "=1.0.154"
tokio = { version = "=1.54.1", features = ["rt", "time"] }

[package]
name = "image_lambda"
version = "0.1.0"
edition = "2021"
publish = false

[dependencies]
accept-header = "=0.2.3"
mime = "=0.3.17"
image = { version = "=0.25.10", default-features = false, features = ["png", "jpeg"] }
serde = { version = "=1.0.229", features = ["derive"] }
serde_json = "=1.0.154"
axum = "=0.8.9"
lambda_http = "=1.3.2"
aws-config = "=1.12.0"
aws-sdk-s3 = "=1.152.0"
aws-types = "=1.6.0"
tokio = { version = "=1.54.1", features = ["macros"] }
tracing = "=0.1.44"
tracing-subscriber = "=0.3.23"

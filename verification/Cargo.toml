[package]
name = "transcriber-rs"
version = "0.1.0"
edition = "2021"
publish = false

[dependencies]
anyhow = "=1.0.104"
axum = "=0.8.9"
futures = "=0.3.34"
hound = "=3.5.1"
parakeet-rs = { version = "=0.4.3", default-features = false, features = ["cpu", "load-dynamic", "api-28"] }
redis = { version = "=1.8.0", features = ["tokio-comp"] }
reqwest = { version = "=0.13.5", default-features = false, features = ["json"] }
rust-s3 = "=0.38.0"
serde = { version = "=1.0.229", features = ["derive"] }
tempfile = "=3.27.0"
tokio = { version = "=1.54.1", features = ["full"] }
tower-http = { version = "=0.7.1", features = ["cors", "trace"] }
tracing = "=0.1.44"
tracing-subscriber = "=0.3.23"
uuid = { version = "=1.29.0", features = ["v4"] }

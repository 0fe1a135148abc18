[package]
name = "upload_transcode"
version = "0.1.0"
edition = "2021"
publish = false

[dependencies]
axum = { version = "0.6", features = ["multipart"] }
dotenvy = "0.15"
serde = { version = "1", features = ["derive"] }
tokio = { version = "1", features = ["full"] }
tower-http = { version = "0.4", features = ["limit", "trace"] }
tracing-subscriber = { version = "0.3", features = ["env-filter"] }

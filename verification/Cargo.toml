[package]
name = "download_gate"
version = "0.1.0"
edition = "2021"
publish = false

[dependencies]
anyhow = "*"
aws-config = "*"
aws-sdk-s3 = "*"
axum = "*"
minijinja = "*"
sqlx = { version = "*", default-features = false, features = ["postgres", "runtime-tokio", "tls-rustls", "uuid", "json"] }
tokio = { version = "*", features = ["rt-multi-thread", "macros", "signal", "net"] }

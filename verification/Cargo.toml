[package]
name = "filedrop"
version = "0.1.0"
edition = "2021"
publish = false

[dependencies]
rand = "*"
chrono = "*"
http = "*"
axum = { version = "*", features = ["multipart"] }
tokio = { version = "*", features = ["rt", "net", "macros"] }
tokio-util = { version = "*", features = ["io"] }
aws-config = "*"
aws-sdk-s3 = "*"
bytes = "*"
minijinja = "*"
humantime = "*"
serde = { version = "*", features = ["derive"] }
thiserror = "*"

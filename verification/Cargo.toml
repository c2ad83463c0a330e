[package]
name = "s3_storage"
version = "0.1.0"
edition = "2021"
publish = false

[dependencies]
anyhow = "*"
aws-config = "*"
aws-sdk-s3 = "*"
axum = "*"
axum-extra = { version = "*", features = ["multipart"] }
bytes = "*"
clap = { version = "*", features = ["derive"] }
dotenvy = "*"
futures = "*"
mime_guess = "*"
tokio = { version = "*", features = ["rt-multi-thread", "macros", "fs", "io-util", "net", "time"] }

[package]
name = "videohost"
version = "0.1.0"
edition = "2021"
publish = false

[dependencies]
axum = { version = "=0.6.20", features = ["multipart"] }
axum-client-ip = "=0.3.1"
include_dir = "=0.7.4"
mime_guess = "=2.0.5"
nanoid = "=0.4.0"
substring = "=1.4.5"
tokio = { version = "1", features = ["macros", "rt-multi-thread"] }

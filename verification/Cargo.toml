[package]
name = "minnow_capture"
version = "0.1.0"
edition = "2021"
publish = false

[dependencies]
anyhow = "1"
sys-locale = "0.3"
rust-i18n = "3"
image = { version = "0.25", default-features = false }
serde = { version = "1", features = ["derive"] }
tracing = "0.1"
tokio = { version = "1", features = ["rt-multi-thread"] }
xcap = "*"

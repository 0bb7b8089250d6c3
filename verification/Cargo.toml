[package]
name = "logquery"
version = "0.1.0"
edition = "2021"
publish = false

[dependencies]
aws-config = { version = "*", default-features = false }
aws-sdk-cloudwatchlogs = { version = "*", default-features = false }
chrono = "*"
tokio = { version = "*", features = ["macros", "rt-multi-thread"] }

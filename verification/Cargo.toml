[package]
name = "sh8601_rs"
version = "0.1.0"
edition = "2021"
publish = false

[dependencies]
embedded-hal = "=1.0.0"
esp-hal = { version = "=1.0.0", features = ["esp32s3", "unstable"] }

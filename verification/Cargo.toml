[package]
name = "rustness"
version = "0.1.0"
edition = "2021"
publish = false

[dependencies]
iced = { version = "=0.7.0", features = ["canvas", "tokio"] }
iced_native = "=0.8.0"

[package]
name = "media_cache"
version = "0.1.0"
edition = "2021"
publish = false

[dependencies]
uuid = { version = "*", features = ["v4"] }
tokio = { version = "*", features = ["fs", "sync", "time", "rt", "macros"] }
notify = "*"

[dev-dependencies]
base64-url = "*"

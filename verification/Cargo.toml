[package]
name = "ok200_core"
version = "0.1.0"
edition = "2021"
publish = false

[dependencies]
uuid = { version = "=1.27.0", features = ["v4"] }
tokio = { version = "=1.53.2", features = ["fs", "net", "io-util", "rt-multi-thread", "sync", "macros"] }
serde = { version = "=1.0.229", features = ["derive"] }
serde_json = "=1.0.151"
dirs = "=7.0.0"

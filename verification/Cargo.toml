[package]
name = "twotter"
version = "0.1.0"
edition = "2021"
publish = false

[dependencies]
serde = { version = "=1.0.229", features = ["derive"] }
serde_json = "=1.0.154"
tokio = { version = "=1.54.1", features = ["full"] }
tokio-util = { version = "=0.7.20", features = ["codec"] }
futures = "=0.3.34"
redis = { version = "=1.8.1", features = ["tokio-comp"] }
time = "=0.3.55"
chrono = "=0.4.45"
bytes = "=1.12.1"
iced = { version = "=0.14.0", default-features = false, features = ["x11", "tiny-skia", "tokio"] }

[package]
name = "sayobot_api_wrap"
version = "0.1.0"
edition = "2021"
publish = false

[dependencies]
serde_json = "1"
urlencoding = "2"
reqwest = { version = "0.12", default-features = false, features = ["stream"] }
tokio = { version = "1", default-features = false, features = ["fs", "io-util"] }
futures = "0.3"
anyhow = "1"

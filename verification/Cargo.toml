[package]
name = "dachsb0t"
version = "0.1.0"
edition = "2021"
publish = false

[dependencies]
tokio = { version = "*", features = ["full"] }
tokio-tungstenite = "*"
futures-util = "*"
url = "*"
tracing = "*"
pretty_env_logger = "*"

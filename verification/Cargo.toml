[package]
name = "ww_client"
version = "0.1.0"
edition = "2021"
publish = false

[dependencies]
tokio = { version = "*", features = ["sync", "rt-multi-thread", "macros", "time", "net"] }
tokio-tungstenite = "*"
futures-util = "*"
serde_json = "*"

[package]
name = "tastytrade_rs"
version = "0.1.0"
edition = "2021"
publish = false

[dependencies]
serde = "1"
serde_json = "1"
tokio = { version = "1", features = ["rt-multi-thread", "time", "sync", "macros", "net"] }
tokio-tungstenite = "*"
futures-util = "0.3"
flume = "*"
url = "2"

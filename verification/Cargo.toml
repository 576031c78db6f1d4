[package]
name = "mcsmp_rs"
version = "0.1.0"
edition = "2021"
publish = false

[dependencies]
serde = { version = "1", features = ["derive"] }
serde_json = "=1.0.154"
uuid = "=1.29.0"
url = "=2.5.8"
tokio = { version = "=1.54.1", features = ["rt", "rt-multi-thread", "net", "sync", "time", "macros"] }
tokio-tungstenite = "=0.30.0"
futures-util = { version = "=0.3.34", features = ["sink"] }

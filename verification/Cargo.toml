[package]
name = "net_infra"
version = "0.1.0"
edition = "2021"
publish = false

[dependencies]
http = "*"
tungstenite = "*"
url = "*"
tokio = { version = "1", features = ["io-util", "net", "rt", "time", "macros"] }

[dev-dependencies]
base64 = "*"

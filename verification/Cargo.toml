[package]
name = "bing_client"
version = "0.1.0"
edition = "2021"
publish = false

[dependencies]
serde = { version = "1", features = ["derive"] }
serde_json = "1"
uuid = { version = "1", features = ["v4"] }
rand = "0.8"
hex = "0.4"
chrono = { version = "0.4", default-features = false, features = ["clock"] }
urlencoding = "2"
reqwest = { version = "0.12", default-features = false, features = ["json", "multipart"] }
tokio = { version = "1", features = ["rt", "macros", "time", "fs", "io-util", "sync"] }
tokio-tungstenite = "*"
futures-util = "0.3"
http = "1"
base64 = "0.22"
image = "0.25"

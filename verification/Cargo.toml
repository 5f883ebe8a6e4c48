[package]
name = "gotify_client"
version = "0.1.0"
edition = "2021"
publish = false

[dependencies]
url = "=2.5.8"
serde_json = "=1.0.151"
reqwest = { version = "=0.13.5", default-features = false }
tokio = { version = "=1.53.2", default-features = false, features = ["rt", "sync", "time", "macros"] }
tungstenite = "*"

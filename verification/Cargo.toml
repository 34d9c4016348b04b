[package]
name = "vidreprocess"
version = "0.1.0"
edition = "2021"
publish = false

[dependencies]
base64 = "0.22"
csv = "1"
filetime = "0.2"
opener = "0.7"
serde = { version = "1", features = ["derive"] }
serde_json = "1"
shlex = "1"
tauri = { version = "2", default-features = false }
tokio = { version = "1", features = ["process", "io-util"] }
uuid = { version = "1", features = ["v4"] }

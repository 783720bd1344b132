[package]
name = "jarvis_code"
version = "0.1.0"
edition = "2021"
publish = false

[dependencies]
anyhow = "1"
base64 = "0.22"
colored = "3"
futures-util = { version = "0.3", features = ["sink"] }
pipewire = "0.8"
reqwest = { version = "0.12", default-features = false, features = ["json", "rustls-tls"] }
rustls = "0.23"
serde = { version = "1", features = ["derive"] }
serde_json = "1"
tokio = { version = "1", features = ["macros", "rt-multi-thread", "sync", "net"] }
tokio-tungstenite = { version = "*", features = ["rustls-tls-webpki-roots"] }

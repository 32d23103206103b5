[package]
name = "torbox_client"
version = "0.1.0"
edition = "2021"
publish = false

[dependencies]
dirs = "*"
human_bytes = "*"
reqwest = { version = "0.12", default-features = false, features = ["json", "multipart", "rustls-tls"] }
serde = { version = "1", features = ["derive"] }
serde_json = "1"
tauri = { version = "2", default-features = false }
tokio = { version = "1", features = ["fs", "io-util"] }

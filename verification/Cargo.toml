[package]
name = "tray_shell"
version = "0.1.0"
edition = "2021"
publish = false

[dependencies]
serde = { version = "1", features = ["derive"] }
serde_json = "1"
url = "2"
tokio = { version = "1", features = ["time"] }
tauri = { version = "2", default-features = false, features = ["wry", "tray-icon"] }

[package]
name = "bigecho"
version = "0.1.0"
edition = "2021"
publish = false

[dependencies]
chrono = "0.4"
serde = { version = "1", features = ["derive"] }
serde_json = "1"
tauri = { version = "2", default-features = false, features = ["tray-icon", "image-png"] }
tauri-plugin-global-shortcut = "2"
tokio = { version = "1", features = ["rt", "time"] }
uuid = { version = "1", features = ["v4"] }

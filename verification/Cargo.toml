[package]
name = "smart_folder_zen"
version = "0.1.0"
edition = "2021"
publish = false

[dependencies]
chrono = "0.4"
dirs = "*"
serde = { version = "1", features = ["derive"] }
serde_json = "1"
tauri = { version = "2", default-features = false, features = ["tray-icon"] }
tauri-plugin-autostart = "2"

[dev-dependencies]
tempfile = "3"

[package]
name = "microhub"
version = "0.1.0"
edition = "2021"
publish = false

[dependencies]
log = "0.4"
serde_json = "1"
tauri = { version = "2", default-features = false, features = ["wry", "devtools"] }
tauri-plugin-log = "2"
url = "2"
windows-sys = { version = "0.61", features = ["Win32_Foundation", "Win32_Security", "Win32_System_JobObjects", "Win32_System_Threading"] }

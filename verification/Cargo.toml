[package]
name = "vista_shell"
version = "0.2.7"
edition = "2021"
publish = false

[dependencies]
open = "=5.4.5"
serde_json = "=1.0.154"
tauri = { version = "=2.12.5", default-features = false, features = ["wry", "unstable"] }
tauri-plugin-dialog = { version = "2", default-features = false }
url = "=2.5.8"
webview2-com = "=0.39.1"
windows = { version = "=0.62.2", features = ["Win32_System_Power"] }

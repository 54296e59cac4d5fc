[package]
name = "ff7_companion"
version = "0.1.0"
edition = "2021"
publish = false

[dependencies]
tauri = { version = "2", default-features = false }
tauri-plugin-updater = { version = "2", default-features = false }

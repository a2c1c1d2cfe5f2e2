[package]
name = "hc3_shell"
version = "0.1.0"
edition = "2021"
publish = false

[dependencies]
dotenvy = "0.15"
log = "0.4"
serde = { version = "1", features = ["derive"] }
tauri = { version = "2", default-features = false }
tauri-plugin-log = "2"
tauri-plugin-process = "2"

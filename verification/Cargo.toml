[package]
name = "wsgw_cdp"
version = "0.1.0"
edition = "2021"
publish = false

[dependencies]
serde = { version = "1", features = ["derive"] }
serde_json = "1"
url = "2"
tungstenite = "*"
dotenvy = "0.15"
log = "0.4"
tauri = { version = "2", default-features = false }
tauri-plugin-log = "2"

[package]
name = "namefix_bridge"
version = "0.1.0"
edition = "2021"
publish = false

[dependencies]
anyhow = "1"
log = "0.4"
serde = { version = "1", features = ["derive"] }
serde_json = "1"
tauri = { version = "2", default-features = false, features = ["wry", "tray-icon"] }
tokio = { version = "1", features = ["sync", "process", "io-util", "time", "rt"] }
which = "*"

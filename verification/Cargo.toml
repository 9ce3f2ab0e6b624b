[package]
name = "webview_bridge"
version = "0.1.0"
edition = "2021"
publish = false

[dependencies]
serde = { version = "=1.0.229", features = ["derive"] }
serde_json = "=1.0.154"
handlebars = "=6.4.4"
include_dir = "=0.7.4"
once_cell = "=1.21.4"
tokio = { version = "=1.54.1", features = ["rt-multi-thread", "sync"] }
tauri-utils = "=2.10.2"
clap = "=4.6.7"
uuid = { version = "=1.29.0", features = ["v4"] }
wry = "0.8"

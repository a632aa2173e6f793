[package]
name = "jupyter_control"
version = "0.1.0"
edition = "2021"
publish = false

[dependencies]
serde_json = "1"
serde = { version = "1", features = ["derive"] }
reqwest = { version = "0.12", default-features = false, features = ["json"] }
log = "0.4"
open = "5"
tauri = { version = "2", default-features = false, features = ["wry"] }

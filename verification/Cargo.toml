[package]
name = "clipshell"
version = "0.1.0"
edition = "2021"
publish = false

[dependencies]
open = "*"
serde = { version = "*", features = ["derive"] }
tauri = { version = "*", default-features = false }

[package]
name = "siggy"
version = "0.1.0"
edition = "2021"
publish = false

[dependencies]
anyhow = "1"
arboard = "3"
chrono = "0.4"
crossterm = "*"
dirs = "*"
emojis = "*"
image = { version = "0.25", default-features = false, features = ["png", "jpeg", "gif", "webp"] }
notify-rust = "4"
open = "5"
ratatui = "*"
rusqlite = { version = "*", features = ["bundled"] }
serde = { version = "1", features = ["derive"] }
serde_json = "1"
tokio = { version = "1", features = ["rt"] }
toml = "*"

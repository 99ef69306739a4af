[package]
name = "gsx_profile_manager"
version = "0.1.0"
edition = "2021"
publish = false

[dependencies]
base64 = "=0.21.7"
chrono = "=0.4.45"
dirs = "=5.0.1"
dirs-next = "=2.0.0"
rand = "=0.8.8"
regex = "=1.13.1"
rusqlite = { version = "=0.31.0", features = ["bundled"] }
serde = { version = "=1.0.229", features = ["derive"] }
serde_json = "=1.0.154"
walkdir = "=2.5.0"
zip = { version = "2", default-features = false, features = ["deflate"] }

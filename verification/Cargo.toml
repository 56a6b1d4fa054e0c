[package]
name = "mpv-handler"
version = "0.3.0"
edition = "2021"
publish = false

[dependencies]
base64 = "0.22"
dirs = "5"
serde = { version = "1", features = ["derive"] }
thiserror = "1"
toml = "0.8"

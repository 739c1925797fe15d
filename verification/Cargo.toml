[package]
name = "spotify_mini_player"
version = "0.1.0"
edition = "2021"
publish = false

[dependencies]
rspotify = "=0.16.1"
chrono = "=0.4.45"
serde = { version = "=1.0.229", features = ["derive"] }
serde_json = "=1.0.154"
thiserror = "=1.0.69"
anyhow = "=1.0.104"
webbrowser = "=0.8.15"
env_logger = "=0.10.2"

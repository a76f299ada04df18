[package]
name = "stream_chat"
version = "0.1.0"
edition = "2021"
publish = false

[dependencies]
chrono = { version = "=0.4.45", features = ["serde"] }
demoji = "=0.0.3"
anyhow = "=1.0.104"
serde = { version = "=1.0.229", features = ["derive"] }
serde_json = "=1.0.154"
toml = "=0.7.8"
xdg = "=2.5.2"
clap = { version = "=4.6.7", features = ["cargo"] }
tokio = { version = "=1.54.1", features = ["full"] }
tokio-util = { version = "=0.7.20", features = ["codec"] }
futures = "=0.3.34"
axum = "=0.6.20"
sqlx = { version = "=0.6.3", default-features = false, features = ["runtime-tokio-rustls", "sqlite", "migrate"] }
uuid = { version = "=1.29.1", features = ["v4"] }
irc = "=0.15.0"
twitchchat = { version = "=0.14.8", features = ["async", "tokio", "tokio-util"] }
youtube_chat = "=0.2.2"

[package]
name = "whis_core"
version = "0.1.0"
edition = "2021"
publish = false

[dependencies]
anyhow = "=1.0.104"
minimp3 = "=0.6.1"
mp3lame-encoder = "*"
reqwest = { version = "=0.13.5", default-features = false, features = ["blocking", "multipart", "json"] }
serde = { version = "=1.0.229", features = ["derive"] }
serde_json = "=1.0.151"

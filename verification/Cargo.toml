[package]
name = "music_catalog"
version = "0.1.0"
edition = "2021"
publish = false

[dependencies]
audiotags = "=0.5.0"
base64 = "=0.23.1"
id3 = "=1.17.2"
mp3-duration = "=0.1.10"
serde = { version = "1", features = ["derive"] }
serde_json = "1"
symphonia = { version = "0.5", features = ["mp3"] }

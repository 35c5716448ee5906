[package]
name = "audio_metadata"
version = "0.1.0"
edition = "2021"
publish = false

[dependencies]
base64 = "0.22"
lofty = "0.22"
serde = { version = "1", features = ["derive"] }

[package]
name = "voicelink"
version = "0.1.0"
edition = "2021"
publish = false

[dependencies]
base64 = "0.21"
rand = "0.8"
serde = { version = "1", features = ["derive"] }
serde_json = "1"
once_cell = "1"
sha2 = "0.10"
opus = "0.3"
cpal = "0.15"
rodio = { version = "0.17", default-features = false }
rubato = "0.14"

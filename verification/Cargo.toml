[package]
name = "tiny_audio_player"
version = "0.1.0"
edition = "2021"
publish = false

[dependencies]
kira = "0.9"
symphonia = "0.5"
serde = { version = "1", features = ["derive"] }
toml = "0.8"

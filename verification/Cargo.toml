[package]
name = "radio_player"
version = "0.1.0"
edition = "2021"
publish = false

[dependencies]
icy-metadata = "0.5"
rodio = "0.21"
serde = { version = "1", features = ["derive"] }
stream-download = "0.22"

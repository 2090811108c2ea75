[package]
name = "yt_transcriber"
version = "0.1.0"
edition = "2021"
publish = false

[dependencies]
anyhow = "1"
clap = { version = "4", features = ["derive"] }
clipboard = "0.5"
reqwest = { version = "0.12", features = ["multipart"] }
serde_json = "1"
tokio = { version = "1", features = ["full"] }
